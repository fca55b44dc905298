use vstd::prelude::*;
use crate::attributes::{identity, marker, text, toggle, AttributeList};

verus! {

/// The properties of a radio button (`md-radio`).
pub struct Props {
    pub disabled: bool,
    pub value: String,
    pub checked: bool,
    pub name: String,
    pub id: Option<String>,
    pub style: Option<String>,
}

/// The attributes that rendering `p` writes on its element, in order.
pub open spec fn attributes_of(p: Props) -> Seq<(Seq<char>, Seq<char>)> {
    toggle("disabled", p.disabled)
        + text("value", p.value@)
        + marker("checked", p.checked)
        + text("name", p.name@)
        + identity(p.id, p.style)
}

impl Props {
    /// The attributes of the rendered `md-radio` element.
    pub fn attributes(&self) -> (r: AttributeList)
        ensures
            r@ == attributes_of(*self),
    {
        let mut a = AttributeList::new();
        a.push_toggle("disabled", self.disabled);
        a.push_text("value", &self.value);
        a.push_marker("checked", self.checked);
        a.push_text("name", &self.name);
        a.push_identity(&self.id, &self.style);
        assert(a@ =~= attributes_of(*self));
        a
    }
}

} // verus!
