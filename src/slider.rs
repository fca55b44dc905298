use vstd::prelude::*;
use crate::attributes::{marker, text, toggle, AttributeList};

verus! {

/// The properties of a slider (`md-slider`). The numeric settings are held as
/// the decimal text that the element reads.
pub struct Props {
    pub disabled: bool,
    /// The lowest value.
    pub min: String,
    /// The highest value.
    pub max: String,
    /// The value of a single-handle slider.
    pub value: String,
    /// The lower value of a range slider.
    pub value_start: String,
    /// The upper value of a range slider.
    pub value_end: String,
    /// The label shown for the value.
    pub value_label: String,
    pub value_label_start: String,
    pub value_label_end: String,
    pub aria_label_start: String,
    pub aria_value_text_start: String,
    pub aria_label_end: String,
    pub aria_value_text_end: String,
    /// The step between values.
    pub step: String,
    /// Shows tick marks.
    pub ticks: bool,
    /// Shows the value label while dragging.
    pub labeled: bool,
    /// Shows two handles.
    pub range: bool,
    pub name: String,
    pub name_start: String,
    pub name_end: String,
}

/// The attributes that rendering `p` writes on its element, in order.
pub open spec fn attributes_of(p: Props) -> Seq<(Seq<char>, Seq<char>)> {
    toggle("disabled", p.disabled) + text("min", p.min@) + text("max", p.max@) + text(
        "value",
        p.value@,
    ) + text("value-start", p.value_start@) + text("value-end", p.value_end@) + text(
        "value-label",
        p.value_label@,
    ) + text("value-label-start", p.value_label_start@) + text(
        "value-label-end",
        p.value_label_end@,
    ) + text("aria-label-start", p.aria_label_start@) + text(
        "aria-value-text-start",
        p.aria_value_text_start@,
    ) + text("aria-label-end", p.aria_label_end@) + text(
        "aria-value-text-end",
        p.aria_value_text_end@,
    ) + text("step", p.step@) + marker("ticks", p.ticks) + marker("labeled", p.labeled) + marker(
        "range",
        p.range,
    ) + text("name", p.name@) + text("name-start", p.name_start@) + text(
        "name-end",
        p.name_end@,
    )
}

impl Props {
    /// The attributes of the rendered `md-slider` element.
    pub fn attributes(&self) -> (r: AttributeList)
        ensures
            r@ == attributes_of(*self),
    {
        let mut a = AttributeList::new();
        a.push_toggle("disabled", self.disabled);
        a.push_text("min", &self.min);
        a.push_text("max", &self.max);
        a.push_text("value", &self.value);
        a.push_text("value-start", &self.value_start);
        a.push_text("value-end", &self.value_end);
        a.push_text("value-label", &self.value_label);
        a.push_text("value-label-start", &self.value_label_start);
        a.push_text("value-label-end", &self.value_label_end);
        a.push_text("aria-label-start", &self.aria_label_start);
        a.push_text("aria-value-text-start", &self.aria_value_text_start);
        a.push_text("aria-label-end", &self.aria_label_end);
        a.push_text("aria-value-text-end", &self.aria_value_text_end);
        a.push_text("step", &self.step);
        a.push_marker("ticks", self.ticks);
        a.push_marker("labeled", self.labeled);
        a.push_marker("range", self.range);
        a.push_text("name", &self.name);
        a.push_text("name-start", &self.name_start);
        a.push_text("name-end", &self.name_end);
        assert(a@ =~= attributes_of(*self));
        a
    }
}

} // verus!
