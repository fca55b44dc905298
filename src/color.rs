use vstd::prelude::*;
use crate::attributes::{text, toggle, AttributeList};

verus! {

/// The properties of a color swatch (`md-color`).
pub struct Props {
    pub value: String,
    pub disabled: bool,
}

/// The attributes that rendering `p` writes on its element, in order.
pub open spec fn attributes_of(p: Props) -> Seq<(Seq<char>, Seq<char>)> {
    text("value", p.value@) + toggle("disabled", p.disabled)
}

impl Props {
    /// The attributes of the rendered `md-color` element.
    pub fn attributes(&self) -> (r: AttributeList)
        ensures
            r@ == attributes_of(*self),
    {
        let mut a = AttributeList::new();
        a.push_text("value", &self.value);
        a.push_toggle("disabled", self.disabled);
        assert(a@ =~= attributes_of(*self));
        a
    }
}

} // verus!
