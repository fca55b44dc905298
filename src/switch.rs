use vstd::prelude::*;
use crate::attributes::{identity, marker, text, toggle, AttributeList};

verus! {

/// The properties of a switch (`md-switch`).
pub struct Props {
    pub disabled: bool,
    pub selected: bool,
    /// Shows icons in the handle.
    pub icons: bool,
    /// Shows only the icon of the selected state.
    pub show_only_selected_icon: bool,
    pub required: bool,
    pub value: String,
    pub name: String,
    pub id: Option<String>,
    pub style: Option<String>,
}

/// The attributes that rendering `p` writes on its element, in order.
pub open spec fn attributes_of(p: Props) -> Seq<(Seq<char>, Seq<char>)> {
    toggle("disabled", p.disabled)
        + toggle("selected", p.selected)
        + marker("icons", p.icons)
        + marker("show-only-selected-icon", p.show_only_selected_icon)
        + toggle("required", p.required)
        + text("value", p.value@)
        + text("name", p.name@)
        + identity(p.id, p.style)
}

impl Props {
    /// The attributes of the rendered `md-switch` element.
    pub fn attributes(&self) -> (r: AttributeList)
        ensures
            r@ == attributes_of(*self),
    {
        let mut a = AttributeList::new();
        a.push_toggle("disabled", self.disabled);
        a.push_toggle("selected", self.selected);
        a.push_marker("icons", self.icons);
        a.push_marker("show-only-selected-icon", self.show_only_selected_icon);
        a.push_toggle("required", self.required);
        a.push_text("value", &self.value);
        a.push_text("name", &self.name);
        a.push_identity(&self.id, &self.style);
        assert(a@ =~= attributes_of(*self));
        a
    }
}

} // verus!
