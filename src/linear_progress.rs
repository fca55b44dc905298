use vstd::prelude::*;
use crate::attributes::{identity, marker, text, AttributeList};

verus! {

/// The properties of a linear progress bar; the numbers are held as the decimal text that the element reads (`md-linear-progress`).
pub struct Props {
    /// How much has been buffered, from 0 to `max`.
    pub buffer: String,
    /// Progress, from 0 to `max`.
    pub value: String,
    /// The value at which progress is complete.
    pub max: String,
    pub indeterminate: bool,
    pub four_color: bool,
    pub id: Option<String>,
    pub style: Option<String>,
}

/// The attributes that rendering `p` writes on its element, in order.
pub open spec fn attributes_of(p: Props) -> Seq<(Seq<char>, Seq<char>)> {
    text("buffer", p.buffer@)
        + text("value", p.value@)
        + text("max", p.max@)
        + marker("indeterminate", p.indeterminate)
        + marker("four-color", p.four_color)
        + identity(p.id, p.style)
}

impl Props {
    /// The attributes of the rendered `md-linear-progress` element.
    pub fn attributes(&self) -> (r: AttributeList)
        ensures
            r@ == attributes_of(*self),
    {
        let mut a = AttributeList::new();
        a.push_text("buffer", &self.buffer);
        a.push_text("value", &self.value);
        a.push_text("max", &self.max);
        a.push_marker("indeterminate", self.indeterminate);
        a.push_marker("four-color", self.four_color);
        a.push_identity(&self.id, &self.style);
        assert(a@ =~= attributes_of(*self));
        a
    }
}

} // verus!
