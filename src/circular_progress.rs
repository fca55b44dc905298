use vstd::prelude::*;
use crate::attributes::{marker, text, AttributeList};

verus! {

/// The properties of a circular progress indicator (`md-circular-progress`).
/// The numbers are held as the decimal text that the element reads.
pub struct Props {
    /// Progress, from 0 to `max`.
    pub value: String,
    /// The value at which progress is complete.
    pub max: String,
    /// Shows an animation instead of a value.
    pub indeterminate: bool,
    /// Cycles through four colors while indeterminate.
    pub four_color: bool,
}

/// The attributes that rendering `p` writes on its element, in order.
pub open spec fn attributes_of(p: Props) -> Seq<(Seq<char>, Seq<char>)> {
    text("value", p.value@) + text("max", p.max@) + marker("indeterminate", p.indeterminate)
        + marker("four-color", p.four_color)
}

impl Props {
    /// The attributes of the rendered `md-circular-progress` element.
    pub fn attributes(&self) -> (r: AttributeList)
        ensures
            r@ == attributes_of(*self),
    {
        let mut a = AttributeList::new();
        a.push_text("value", &self.value);
        a.push_text("max", &self.max);
        a.push_marker("indeterminate", self.indeterminate);
        a.push_marker("four-color", self.four_color);
        assert(a@ =~= attributes_of(*self));
        a
    }
}

} // verus!
