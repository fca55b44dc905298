use vstd::prelude::*;
use crate::attributes::{identity, marker, text, AttributeList};

verus! {

/// The properties of a progress indicator; the amount is held as the decimal text that the element reads (`md-progress`).
pub struct Props {
    pub progress: String,
    pub indeterminate: bool,
    pub four_color: bool,
    pub id: Option<String>,
    pub style: Option<String>,
}

/// The attributes that rendering `p` writes on its element, in order.
pub open spec fn attributes_of(p: Props) -> Seq<(Seq<char>, Seq<char>)> {
    text("progress", p.progress@)
        + marker("indeterminate", p.indeterminate)
        + marker("four-color", p.four_color)
        + identity(p.id, p.style)
}

impl Props {
    /// The attributes of the rendered `md-progress` element.
    pub fn attributes(&self) -> (r: AttributeList)
        ensures
            r@ == attributes_of(*self),
    {
        let mut a = AttributeList::new();
        a.push_text("progress", &self.progress);
        a.push_marker("indeterminate", self.indeterminate);
        a.push_marker("four-color", self.four_color);
        a.push_identity(&self.id, &self.style);
        assert(a@ =~= attributes_of(*self));
        a
    }
}

} // verus!
