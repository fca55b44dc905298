use vstd::prelude::*;
use crate::attributes::{decimal, marker, text, toggle, AttributeList};

verus! {

/// The properties of a menu (`md-menu`).
pub struct Props {
    /// The id of the element, in the same root node, to which the menu aligns.
    pub anchor: String,
    /// `absolute` to position relative to the anchor's parent, `fixed` for the window.
    pub positioning: String,
    /// Skips the opening and closing animations.
    pub quick: bool,
    /// Displays overflow content like a submenu.
    pub has_overflow: bool,
    /// Opens the menu and makes it visible.
    pub open: bool,
    /// Inline offset from the anchor, in pixels.
    pub x_offset: i32,
    /// Block offset from the anchor, in pixels.
    pub y_offset: i32,
    /// Longest pause between typeahead keystrokes before the buffer clears.
    pub typeahead_delay: u32,
    /// The corner of the anchor to which the menu aligns.
    pub anchor_corner: String,
    /// The corner of the menu that aligns with the anchor.
    pub menu_corner: String,
    /// Keeps the menu open on clicks outside it.
    pub stay_open_on_outside_click: bool,
    /// Keeps the menu open when focus leaves it.
    pub stay_open_on_focusout: bool,
    /// After closing, does not give focus back to the element focused before opening.
    pub skip_restore_focus: bool,
    /// The element focused once the menu opens.
    pub default_focus: String,
    /// Whether this menu is a submenu.
    pub is_submenu: bool,
}

/// The attributes that rendering `p` writes on its element, in order.
pub open spec fn attributes_of(p: Props) -> Seq<(Seq<char>, Seq<char>)> {
    text("anchor", p.anchor@) + text("positioning", p.positioning@) + marker("quick", p.quick)
        + marker("has-overflow", p.has_overflow) + toggle("open", p.open) + text(
        "x-offset",
        decimal(p.x_offset as int),
    ) + text("y-offset", decimal(p.y_offset as int)) + text(
        "typeahead-delay",
        decimal(p.typeahead_delay as int),
    ) + text("anchor-corner", p.anchor_corner@) + text("menu-corner", p.menu_corner@) + marker(
        "stay-open-on-outside-click",
        p.stay_open_on_outside_click,
    ) + marker("stay-open-on-focusout", p.stay_open_on_focusout) + marker(
        "skip-restore-focus",
        p.skip_restore_focus,
    ) + text("default-focus", p.default_focus@) + marker("is-submenu", p.is_submenu)
}

impl Props {
    /// The attributes of the rendered `md-menu` element.
    pub fn attributes(&self) -> (r: AttributeList)
        ensures
            r@ == attributes_of(*self),
    {
        let mut a = AttributeList::new();
        a.push_text("anchor", &self.anchor);
        a.push_text("positioning", &self.positioning);
        a.push_marker("quick", self.quick);
        a.push_marker("has-overflow", self.has_overflow);
        a.push_toggle("open", self.open);
        a.push_number("x-offset", self.x_offset as i64);
        a.push_number("y-offset", self.y_offset as i64);
        a.push_number("typeahead-delay", self.typeahead_delay as i64);
        a.push_text("anchor-corner", &self.anchor_corner);
        a.push_text("menu-corner", &self.menu_corner);
        a.push_marker("stay-open-on-outside-click", self.stay_open_on_outside_click);
        a.push_marker("stay-open-on-focusout", self.stay_open_on_focusout);
        a.push_marker("skip-restore-focus", self.skip_restore_focus);
        a.push_text("default-focus", &self.default_focus);
        a.push_marker("is-submenu", self.is_submenu);
        assert(a@ =~= attributes_of(*self));
        a
    }
}

} // verus!
