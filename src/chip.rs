use vstd::prelude::*;
use crate::attributes::{identity, marker, text, toggle, AttributeList};

verus! {

/// The four kinds of chip.
#[derive(PartialEq, Eq, Structural, Clone, Copy, Debug)]
pub enum ChipKind {
    Assist,
    Filter,
    Input,
    Suggestion,
}

/// The custom element that renders it.
pub open spec fn tag_of(k: ChipKind) -> Seq<char> {
    match k {
        ChipKind::Assist => "md-assist-chip"@,
        ChipKind::Filter => "md-filter-chip"@,
        ChipKind::Input => "md-input-chip"@,
        ChipKind::Suggestion => "md-suggestion-chip"@,
    }
}

impl ChipKind {
    /// The custom element that renders this kind of chip.
    pub fn as_tag_name(&self) -> (r: &'static str)
        ensures
            r@ == tag_of(*self),
    {
        match self {
            ChipKind::Assist => "md-assist-chip",
            ChipKind::Filter => "md-filter-chip",
            ChipKind::Input => "md-input-chip",
            ChipKind::Suggestion => "md-suggestion-chip",
        }
    }
}

/// Assist, filter and suggestion chips can be elevated.
pub open spec fn offers_elevated(k: ChipKind) -> bool {
    k != ChipKind::Input
}

/// Filter and input chips can be selected.
pub open spec fn offers_selected(k: ChipKind) -> bool {
    k == ChipKind::Filter || k == ChipKind::Input
}

/// Only filter chips can be removable.
pub open spec fn offers_removable(k: ChipKind) -> bool {
    k == ChipKind::Filter
}

/// Only input chips can show an avatar.
pub open spec fn offers_avatar(k: ChipKind) -> bool {
    k == ChipKind::Input
}

/// Every setting of `p` that is on is one its kind offers. The per-kind chip
/// components build only such properties; `attributes` itself writes every
/// flag as given.
pub open spec fn settings_offered(p: ChipProps) -> bool {
    &&& p.elevated ==> offers_elevated(p.kind)
    &&& p.selected ==> offers_selected(p.kind)
    &&& p.removable ==> offers_removable(p.kind)
    &&& p.avatar ==> offers_avatar(p.kind)
}

/// The properties shared by every kind of chip. A setting that the kind does
/// not offer (see `settings_offered`) is left `false` by the per-kind
/// components.
pub struct ChipProps {
    pub kind: ChipKind,
    /// Raises the chip with a shadow (assist, filter and suggestion chips).
    pub elevated: bool,
    pub href: String,
    pub target: String,
    pub download: String,
    pub disabled: bool,
    /// Keeps a disabled chip focusable.
    pub always_focusable: bool,
    /// Filter and input chips only.
    pub selected: bool,
    /// Shows a remove button (filter chips).
    pub removable: bool,
    /// Shows the icon as an avatar (input chips).
    pub avatar: bool,
    pub id: Option<String>,
    pub style: Option<String>,
}

/// The attributes that rendering `p` writes on its element, in order.
pub open spec fn attributes_of(p: ChipProps) -> Seq<(Seq<char>, Seq<char>)> {
    marker("elevated", p.elevated) + text("href", p.href@) + text("target", p.target@) + text(
        "download",
        p.download@,
    ) + toggle("disabled", p.disabled) + marker("always-focusable", p.always_focusable) + toggle(
        "selected",
        p.selected,
    ) + marker("removable", p.removable) + marker("avatar", p.avatar) + identity(p.id, p.style)
}

impl ChipProps {
    /// The custom element to render.
    pub fn tag_name(&self) -> (r: &'static str)
        ensures
            r@ == tag_of(self.kind),
    {
        self.kind.as_tag_name()
    }

    /// The attributes of the rendered chip element; every flag is written as given.
    pub fn attributes(&self) -> (r: AttributeList)
        ensures
            r@ == attributes_of(*self),
    {
        let mut a = AttributeList::new();
        a.push_marker("elevated", self.elevated);
        a.push_text("href", &self.href);
        a.push_text("target", &self.target);
        a.push_text("download", &self.download);
        a.push_toggle("disabled", self.disabled);
        a.push_marker("always-focusable", self.always_focusable);
        a.push_toggle("selected", self.selected);
        a.push_marker("removable", self.removable);
        a.push_marker("avatar", self.avatar);
        a.push_identity(&self.id, &self.style);
        assert(a@ =~= attributes_of(*self));
        a
    }
}

} // verus!
