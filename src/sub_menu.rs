use vstd::prelude::*;
use crate::attributes::{decimal, text, AttributeList};

verus! {

/// The properties of a submenu (`md-sub-menu`).
pub struct Props {
    /// The corner of the anchor to which the submenu aligns.
    pub anchor_corner: String,
    /// The corner of the submenu that aligns with the anchor.
    pub menu_corner: String,
    /// Delay between the pointer entering and the submenu opening.
    pub hover_open_delay: u32,
    /// Delay between the pointer leaving and the submenu closing.
    pub hover_close_delay: u32,
}

/// The attributes that rendering `p` writes on its element, in order.
pub open spec fn attributes_of(p: Props) -> Seq<(Seq<char>, Seq<char>)> {
    text("anchor-corner", p.anchor_corner@) + text("menu-corner", p.menu_corner@) + text(
        "hover-open-delay",
        decimal(p.hover_open_delay as int),
    ) + text("hover-close-delay", decimal(p.hover_close_delay as int))
}

impl Props {
    /// The attributes of the rendered `md-sub-menu` element.
    pub fn attributes(&self) -> (r: AttributeList)
        ensures
            r@ == attributes_of(*self),
    {
        let mut a = AttributeList::new();
        a.push_text("anchor-corner", &self.anchor_corner);
        a.push_text("menu-corner", &self.menu_corner);
        a.push_number("hover-open-delay", self.hover_open_delay as i64);
        a.push_number("hover-close-delay", self.hover_close_delay as i64);
        assert(a@ =~= attributes_of(*self));
        a
    }
}

} // verus!
