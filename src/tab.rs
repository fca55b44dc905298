use vstd::prelude::*;
use crate::attributes::{identity, marker, toggle, AttributeList};

verus! {

/// The properties of a tab (`md-tab`).
pub struct Props {
    pub disabled: bool,
    pub active: bool,
    pub id: Option<String>,
    pub style: Option<String>,
}

/// The attributes that rendering `p` writes on its element, in order.
pub open spec fn attributes_of(p: Props) -> Seq<(Seq<char>, Seq<char>)> {
    toggle("disabled", p.disabled)
        + marker("active", p.active)
        + identity(p.id, p.style)
}

impl Props {
    /// The attributes of the rendered `md-tab` element.
    pub fn attributes(&self) -> (r: AttributeList)
        ensures
            r@ == attributes_of(*self),
    {
        let mut a = AttributeList::new();
        a.push_toggle("disabled", self.disabled);
        a.push_marker("active", self.active);
        a.push_identity(&self.id, &self.style);
        assert(a@ =~= attributes_of(*self));
        a
    }
}

} // verus!
