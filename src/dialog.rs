use vstd::prelude::*;
use crate::attributes::{marker, text, toggle, AttributeList};

verus! {

/// The properties of a dialog (`md-dialog`).
pub struct Props {
    /// Opens the dialog.
    pub open: bool,
    /// Skips the opening and closing animations.
    pub quick: bool,
    /// The value the dialog reports when it closes.
    pub return_value: String,
    /// The dialog's type, such as `alert`.
    pub kind: String,
    /// Disables focus trapping while the dialog is open.
    pub no_focus_trap: bool,
}

/// The attributes that rendering `p` writes on its element, in order.
pub open spec fn attributes_of(p: Props) -> Seq<(Seq<char>, Seq<char>)> {
    toggle("open", p.open) + marker("quick", p.quick) + text("returnValue", p.return_value@)
        + text("type", p.kind@) + marker("no-focus-trap", p.no_focus_trap)
}

impl Props {
    /// The attributes of the rendered `md-dialog` element.
    pub fn attributes(&self) -> (r: AttributeList)
        ensures
            r@ == attributes_of(*self),
    {
        let mut a = AttributeList::new();
        a.push_toggle("open", self.open);
        a.push_marker("quick", self.quick);
        a.push_text("returnValue", &self.return_value);
        a.push_text("type", &self.kind);
        a.push_marker("no-focus-trap", self.no_focus_trap);
        assert(a@ =~= attributes_of(*self));
        a
    }
}

} // verus!
