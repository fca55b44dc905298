use vstd::prelude::*;
use crate::attributes::{identity, marker, text, toggle, AttributeList};

verus! {

/// The properties of a checkbox (`md-checkbox`).
pub struct Props {
    pub checked: bool,
    pub disabled: bool,
    /// Shows a dash instead of a check mark.
    pub indeterminate: bool,
    pub required: bool,
    /// The value submitted with the form when checked.
    pub value: String,
    pub name: String,
    pub id: Option<String>,
    pub style: Option<String>,
}

/// The attributes that rendering `p` writes on its element, in order.
pub open spec fn attributes_of(p: Props) -> Seq<(Seq<char>, Seq<char>)> {
    marker("checked", p.checked)
        + toggle("disabled", p.disabled)
        + marker("indeterminate", p.indeterminate)
        + toggle("required", p.required)
        + text("value", p.value@)
        + text("name", p.name@)
        + identity(p.id, p.style)
}

impl Props {
    /// The attributes of the rendered `md-checkbox` element.
    pub fn attributes(&self) -> (r: AttributeList)
        ensures
            r@ == attributes_of(*self),
    {
        let mut a = AttributeList::new();
        a.push_marker("checked", self.checked);
        a.push_toggle("disabled", self.disabled);
        a.push_marker("indeterminate", self.indeterminate);
        a.push_toggle("required", self.required);
        a.push_text("value", &self.value);
        a.push_text("name", &self.name);
        a.push_identity(&self.id, &self.style);
        assert(a@ =~= attributes_of(*self));
        a
    }
}

} // verus!
