use vstd::prelude::*;
use crate::attributes::{identity, marker, AttributeList};

verus! {

/// The properties of a divider (`md-divider`).
pub struct Props {
    /// Indents the start.
    pub inset_start: bool,
    /// Indents the end.
    pub inset_end: bool,
    /// Indents both ends.
    pub inset: bool,
    pub id: Option<String>,
    pub style: Option<String>,
}

/// The attributes that rendering `p` writes on its element, in order.
pub open spec fn attributes_of(p: Props) -> Seq<(Seq<char>, Seq<char>)> {
    marker("inset", p.inset)
        + marker("inset-start", p.inset_start)
        + marker("inset-end", p.inset_end)
        + identity(p.id, p.style)
}

impl Props {
    /// The attributes of the rendered `md-divider` element.
    pub fn attributes(&self) -> (r: AttributeList)
        ensures
            r@ == attributes_of(*self),
    {
        let mut a = AttributeList::new();
        a.push_marker("inset", self.inset);
        a.push_marker("inset-start", self.inset_start);
        a.push_marker("inset-end", self.inset_end);
        a.push_identity(&self.id, &self.style);
        assert(a@ =~= attributes_of(*self));
        a
    }
}

} // verus!
