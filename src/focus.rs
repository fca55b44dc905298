use vstd::prelude::*;
use crate::attributes::{identity, toggle, AttributeList};

verus! {

/// The properties of a focus ring (`md-focus`).
pub struct Props {
    pub disabled: bool,
    pub id: Option<String>,
    pub style: Option<String>,
}

/// The attributes that rendering `p` writes on its element, in order.
pub open spec fn attributes_of(p: Props) -> Seq<(Seq<char>, Seq<char>)> {
    toggle("disabled", p.disabled)
        + identity(p.id, p.style)
}

impl Props {
    /// The attributes of the rendered `md-focus` element.
    pub fn attributes(&self) -> (r: AttributeList)
        ensures
            r@ == attributes_of(*self),
    {
        let mut a = AttributeList::new();
        a.push_toggle("disabled", self.disabled);
        a.push_identity(&self.id, &self.style);
        assert(a@ =~= attributes_of(*self));
        a
    }
}

} // verus!
