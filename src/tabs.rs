use vstd::prelude::*;
use crate::attributes::{decimal, identity, text, AttributeList};

verus! {

/// The properties of a tab bar (`md-tabs`).
pub struct Props {
    /// The index of the active tab.
    pub active_index: u32,
    pub id: Option<String>,
    pub style: Option<String>,
}

/// The attributes that rendering `p` writes on its element, in order.
pub open spec fn attributes_of(p: Props) -> Seq<(Seq<char>, Seq<char>)> {
    text("active-index", decimal(p.active_index as int))
        + identity(p.id, p.style)
}

impl Props {
    /// The attributes of the rendered `md-tabs` element.
    pub fn attributes(&self) -> (r: AttributeList)
        ensures
            r@ == attributes_of(*self),
    {
        let mut a = AttributeList::new();
        a.push_number("active-index", self.active_index as i64);
        a.push_identity(&self.id, &self.style);
        assert(a@ =~= attributes_of(*self));
        a
    }
}

} // verus!
