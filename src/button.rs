use vstd::prelude::*;
use crate::attributes::{identity, marker, text, toggle, AttributeList};

verus! {

/// The variants of the button component.
#[derive(PartialEq, Eq, Structural, Clone, Copy, Debug)]
pub enum ButtonVariants {
    /// A button with a shadow effect.
    Elevated,
    /// A button with a solid background color.
    Filled,
    /// A button with a less prominent background color.
    FilledTonal,
    /// A button with a border and no background color.
    Outlined,
    /// A button with no border or background color.
    Text,
}

/// The custom element that renders it.
pub open spec fn tag_of(v: ButtonVariants) -> Seq<char> {
    match v {
        ButtonVariants::Elevated => "md-elevated-button"@,
        ButtonVariants::Filled => "md-filled-button"@,
        ButtonVariants::FilledTonal => "md-filled-tonal-button"@,
        ButtonVariants::Outlined => "md-outlined-button"@,
        ButtonVariants::Text => "md-text-button"@,
    }
}

impl ButtonVariants {
    /// The custom element that renders this variant.
    pub fn as_tag_name(&self) -> (r: &'static str)
        ensures
            r@ == tag_of(*self),
    {
        match self {
            ButtonVariants::Elevated => "md-elevated-button",
            ButtonVariants::Filled => "md-filled-button",
            ButtonVariants::FilledTonal => "md-filled-tonal-button",
            ButtonVariants::Outlined => "md-outlined-button",
            ButtonVariants::Text => "md-text-button",
        }
    }
}

/// The properties of a button.
pub struct Props {
    pub disabled: bool,
    /// Disables ripple and state but keeps the button focusable.
    pub soft_disabled: bool,
    /// The URL of a link button.
    pub href: String,
    /// Where a link button opens its URL.
    pub target: String,
    /// Asks the browser to download the linked file.
    pub download: String,
    /// Puts the icon after the label.
    pub trailing_icon: bool,
    /// `button`, `reset` or `submit`.
    pub kind: String,
    /// The value submitted with the form.
    pub value: String,
    pub name: String,
    /// The id of the associated form.
    pub form: String,
    pub variant: ButtonVariants,
    pub id: Option<String>,
    pub style: Option<String>,
}

/// The attributes that rendering `p` writes on its element, in order.
pub open spec fn attributes_of(p: Props) -> Seq<(Seq<char>, Seq<char>)> {
    toggle("disabled", p.disabled) + marker("soft-disabled", p.soft_disabled) + text(
        "href",
        p.href@,
    ) + text("target", p.target@) + text("download", p.download@) + marker(
        "trailing-icon",
        p.trailing_icon,
    ) + text("type", p.kind@) + text("value", p.value@) + text("name", p.name@) + text(
        "form",
        p.form@,
    ) + identity(p.id, p.style)
}

impl Props {
    /// The custom element to render.
    pub fn tag_name(&self) -> (r: &'static str)
        ensures
            r@ == tag_of(self.variant),
    {
        self.variant.as_tag_name()
    }

    /// The attributes of the rendered element.
    pub fn attributes(&self) -> (r: AttributeList)
        ensures
            r@ == attributes_of(*self),
    {
        let mut a = AttributeList::new();
        a.push_toggle("disabled", self.disabled);
        a.push_marker("soft-disabled", self.soft_disabled);
        a.push_text("href", &self.href);
        a.push_text("target", &self.target);
        a.push_text("download", &self.download);
        a.push_marker("trailing-icon", self.trailing_icon);
        a.push_text("type", &self.kind);
        a.push_text("value", &self.value);
        a.push_text("name", &self.name);
        a.push_text("form", &self.form);
        a.push_identity(&self.id, &self.style);
        assert(a@ =~= attributes_of(*self));
        a
    }
}

} // verus!
