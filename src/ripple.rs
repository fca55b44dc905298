use vstd::prelude::*;
use crate::attributes::{identity, marker, toggle, AttributeList};

verus! {

/// The properties of a ripple (`md-ripple`).
pub struct Props {
    /// Lets the ripple spread past its container.
    pub unbounded: bool,
    pub disabled: bool,
    pub id: Option<String>,
    pub style: Option<String>,
}

/// The attributes that rendering `p` writes on its element, in order.
pub open spec fn attributes_of(p: Props) -> Seq<(Seq<char>, Seq<char>)> {
    marker("unbounded", p.unbounded)
        + toggle("disabled", p.disabled)
        + identity(p.id, p.style)
}

impl Props {
    /// The attributes of the rendered `md-ripple` element.
    pub fn attributes(&self) -> (r: AttributeList)
        ensures
            r@ == attributes_of(*self),
    {
        let mut a = AttributeList::new();
        a.push_marker("unbounded", self.unbounded);
        a.push_toggle("disabled", self.disabled);
        a.push_identity(&self.id, &self.style);
        assert(a@ =~= attributes_of(*self));
        a
    }
}

} // verus!
