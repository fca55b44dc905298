use vstd::prelude::*;
use crate::attributes::{marker, text, toggle, AttributeList};

verus! {

/// The properties of a menu item (`md-menu-item`).
pub struct Props {
    pub disabled: bool,
    /// The item's role, such as `menuitem`, `option`, `button` or `link`.
    pub kind: String,
    /// The URL the item links to.
    pub href: String,
    /// Where to open the linked URL.
    pub target: String,
    /// Keeps the menu open when the item is clicked.
    pub keep_open: bool,
    pub selected: bool,
    /// The text that typeahead matches against.
    pub typeahead_text: String,
    pub value: String,
}

/// The attributes that rendering `p` writes on its element, in order.
pub open spec fn attributes_of(p: Props) -> Seq<(Seq<char>, Seq<char>)> {
    toggle("disabled", p.disabled) + text("type", p.kind@) + text("href", p.href@) + text(
        "target",
        p.target@,
    ) + marker("keep-open", p.keep_open) + toggle("selected", p.selected) + text(
        "typeahead-text",
        p.typeahead_text@,
    ) + text("value", p.value@)
}

impl Props {
    /// The attributes of the rendered `md-menu-item` element.
    pub fn attributes(&self) -> (r: AttributeList)
        ensures
            r@ == attributes_of(*self),
    {
        let mut a = AttributeList::new();
        a.push_toggle("disabled", self.disabled);
        a.push_text("type", &self.kind);
        a.push_text("href", &self.href);
        a.push_text("target", &self.target);
        a.push_marker("keep-open", self.keep_open);
        a.push_toggle("selected", self.selected);
        a.push_text("typeahead-text", &self.typeahead_text);
        a.push_text("value", &self.value);
        assert(a@ =~= attributes_of(*self));
        a
    }
}

} // verus!
