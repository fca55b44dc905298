use vstd::prelude::*;
use crate::attributes::{identity, text, toggle, AttributeList};

verus! {

/// The properties of a list item (`md-list-item`).
pub struct Props {
    pub disabled: bool,
    /// `text`, `button` or `link`.
    pub kind: String,
    pub href: String,
    pub target: String,
    pub id: Option<String>,
    pub style: Option<String>,
}

/// The attributes that rendering `p` writes on its element, in order.
pub open spec fn attributes_of(p: Props) -> Seq<(Seq<char>, Seq<char>)> {
    toggle("disabled", p.disabled)
        + text("type", p.kind@)
        + text("href", p.href@)
        + text("target", p.target@)
        + identity(p.id, p.style)
}

impl Props {
    /// The attributes of the rendered `md-list-item` element.
    pub fn attributes(&self) -> (r: AttributeList)
        ensures
            r@ == attributes_of(*self),
    {
        let mut a = AttributeList::new();
        a.push_toggle("disabled", self.disabled);
        a.push_text("type", &self.kind);
        a.push_text("href", &self.href);
        a.push_text("target", &self.target);
        a.push_identity(&self.id, &self.style);
        assert(a@ =~= attributes_of(*self));
        a
    }
}

} // verus!
