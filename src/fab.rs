use vstd::prelude::*;
use crate::attributes::{identity, marker, text, toggle, AttributeList};

verus! {

/// The two styles of floating action button.
#[derive(PartialEq, Eq, Structural, Clone, Copy, Debug)]
pub enum FabStyle {
    Standard,
    Branded,
}

/// The custom element that renders the style.
pub open spec fn style_tag(s: FabStyle) -> Seq<char> {
    match s {
        FabStyle::Standard => "md-fab"@,
        FabStyle::Branded => "md-branded-fab"@,
    }
}

impl FabStyle {
    /// The custom element that renders this style.
    pub fn as_tag_name(&self) -> (r: &'static str)
        ensures
            r@ == style_tag(*self),
    {
        match self {
            FabStyle::Standard => "md-fab",
            FabStyle::Branded => "md-branded-fab",
        }
    }
}

/// The color variants of a floating action button; `Surface` is the default.
#[derive(PartialEq, Eq, Structural, Clone, Copy, Debug, Default)]
pub enum FabVariant {
    #[default]
    Surface,
    Primary,
    Secondary,
    Tertiary,
}

/// The name of the variant as the element reads it.
pub open spec fn variant_name(v: FabVariant) -> Seq<char> {
    match v {
        FabVariant::Surface => "surface"@,
        FabVariant::Primary => "primary"@,
        FabVariant::Secondary => "secondary"@,
        FabVariant::Tertiary => "tertiary"@,
    }
}

impl FabVariant {
    /// The variant's name in lower case, as the element reads it.
    pub fn as_str(&self) -> (r: &'static str)
        ensures
            r@ == variant_name(*self),
    {
        match self {
            FabVariant::Surface => "surface",
            FabVariant::Primary => "primary",
            FabVariant::Secondary => "secondary",
            FabVariant::Tertiary => "tertiary",
        }
    }
}

/// The sizes of a floating action button; `Medium` is the default.
#[derive(PartialEq, Eq, Structural, Clone, Copy, Debug, Default)]
pub enum FabSize {
    Small,
    #[default]
    Medium,
    Large,
}

/// The name of the size as the element reads it.
pub open spec fn size_name(s: FabSize) -> Seq<char> {
    match s {
        FabSize::Small => "small"@,
        FabSize::Medium => "medium"@,
        FabSize::Large => "large"@,
    }
}

impl FabSize {
    /// The size's name in lower case, as the element reads it.
    pub fn as_str(&self) -> (r: &'static str)
        ensures
            r@ == size_name(*self),
    {
        match self {
            FabSize::Small => "small",
            FabSize::Medium => "medium",
            FabSize::Large => "large",
        }
    }
}

/// The properties of a floating action button.
pub struct Props {
    pub variant: FabVariant,
    /// Branded buttons cannot be small; extended ones have a single size.
    pub size: FabSize,
    /// The text shown on the button.
    pub label: String,
    /// Lowers the button's elevation.
    pub lowered: bool,
    pub fab_style: FabStyle,
    pub disabled: bool,
    pub id: Option<String>,
    pub style: Option<String>,
}

/// The attributes that rendering `p` writes on its element, in order.
pub open spec fn attributes_of(p: Props) -> Seq<(Seq<char>, Seq<char>)> {
    text("variant", variant_name(p.variant)) + text("size", size_name(p.size)) + text(
        "label",
        p.label@,
    ) + marker("lowered", p.lowered) + toggle("disabled", p.disabled) + identity(p.id, p.style)
}

impl Props {
    /// The custom element to render.
    pub fn tag_name(&self) -> (r: &'static str)
        ensures
            r@ == style_tag(self.fab_style),
    {
        self.fab_style.as_tag_name()
    }

    /// The attributes of the rendered element.
    pub fn attributes(&self) -> (r: AttributeList)
        ensures
            r@ == attributes_of(*self),
    {
        let mut a = AttributeList::new();
        a.push_text("variant", &String::from_str(self.variant.as_str()));
        a.push_text("size", &String::from_str(self.size.as_str()));
        a.push_text("label", &self.label);
        a.push_marker("lowered", self.lowered);
        a.push_toggle("disabled", self.disabled);
        a.push_identity(&self.id, &self.style);
        assert(a@ =~= attributes_of(*self));
        a
    }
}

} // verus!
