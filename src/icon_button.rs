use vstd::prelude::*;
use crate::attributes::{identity, marker, text, toggle, AttributeList};

verus! {

/// The variants of the icon button component.
#[derive(PartialEq, Eq, Structural, Clone, Copy, Debug)]
pub enum IconButtonVariants {
    Standard,
    Filled,
    FilledTonal,
    Outlined,
}

/// The custom element that renders it.
pub open spec fn tag_of(v: IconButtonVariants) -> Seq<char> {
    match v {
        IconButtonVariants::Standard => "md-icon-button"@,
        IconButtonVariants::Filled => "md-filled-icon-button"@,
        IconButtonVariants::FilledTonal => "md-filled-tonal-icon-button"@,
        IconButtonVariants::Outlined => "md-outlined-icon-button"@,
    }
}

impl IconButtonVariants {
    /// The custom element that renders this variant.
    pub fn as_tag_name(&self) -> (r: &'static str)
        ensures
            r@ == tag_of(*self),
    {
        match self {
            IconButtonVariants::Standard => "md-icon-button",
            IconButtonVariants::Filled => "md-filled-icon-button",
            IconButtonVariants::FilledTonal => "md-filled-tonal-icon-button",
            IconButtonVariants::Outlined => "md-outlined-icon-button",
        }
    }
}

/// The properties of an icon button.
pub struct Props {
    pub disabled: bool,
    /// Mirrors the icon in right-to-left layouts.
    pub flip_icon_in_rtl: bool,
    pub href: String,
    pub target: String,
    /// The accessible label while a toggle button is selected.
    pub aria_label_selected: String,
    /// Makes the button a toggle.
    pub toggle: bool,
    pub selected: bool,
    /// `button`, `reset` or `submit`.
    pub kind: String,
    pub value: String,
    pub name: String,
    pub form: String,
    pub variant: IconButtonVariants,
    pub id: Option<String>,
    pub style: Option<String>,
}

/// The attributes that rendering `p` writes on its element, in order.
pub open spec fn attributes_of(p: Props) -> Seq<(Seq<char>, Seq<char>)> {
    toggle("disabled", p.disabled) + marker("flip-icon-in-rtl", p.flip_icon_in_rtl) + text(
        "href",
        p.href@,
    ) + text("target", p.target@) + text("aria-label-selected", p.aria_label_selected@) + marker(
        "toggle",
        p.toggle,
    ) + toggle("selected", p.selected) + text("type", p.kind@) + text("value", p.value@) + text(
        "name",
        p.name@,
    ) + text("form", p.form@) + identity(p.id, p.style)
}

impl Props {
    /// The custom element to render.
    pub fn tag_name(&self) -> (r: &'static str)
        ensures
            r@ == tag_of(self.variant),
    {
        self.variant.as_tag_name()
    }

    /// The attributes of the rendered element.
    pub fn attributes(&self) -> (r: AttributeList)
        ensures
            r@ == attributes_of(*self),
    {
        let mut a = AttributeList::new();
        a.push_toggle("disabled", self.disabled);
        a.push_marker("flip-icon-in-rtl", self.flip_icon_in_rtl);
        a.push_text("href", &self.href);
        a.push_text("target", &self.target);
        a.push_text("aria-label-selected", &self.aria_label_selected);
        a.push_marker("toggle", self.toggle);
        a.push_toggle("selected", self.selected);
        a.push_text("type", &self.kind);
        a.push_text("value", &self.value);
        a.push_text("name", &self.name);
        a.push_text("form", &self.form);
        a.push_identity(&self.id, &self.style);
        assert(a@ =~= attributes_of(*self));
        a
    }
}

} // verus!
