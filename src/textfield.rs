use vstd::prelude::*;
use crate::attributes::{identity, text, toggle, AttributeList};

verus! {

/// The properties of a text field.
pub struct Props {
    pub label: String,
    pub value: String,
    pub disabled: bool,
    /// Draws an outline instead of a filled background.
    pub outlined: bool,
    pub id: Option<String>,
    pub style: Option<String>,
}

/// The custom element that renders it.
pub open spec fn tag_of(outlined: bool) -> Seq<char> {
    if outlined {
        "md-outlined-text-field"@
    } else {
        "md-filled-text-field"@
    }
}

/// The attributes that rendering `p` writes on its element, in order.
pub open spec fn attributes_of(p: Props) -> Seq<(Seq<char>, Seq<char>)> {
    text("label", p.label@) + text("value", p.value@) + toggle("disabled", p.disabled) + identity(
        p.id,
        p.style,
    )
}

impl Props {
    /// The custom element to render: outlined or filled.
    pub fn tag_name(&self) -> (r: &'static str)
        ensures
            r@ == tag_of(self.outlined),
    {
        if self.outlined {
            "md-outlined-text-field"
        } else {
            "md-filled-text-field"
        }
    }

    /// The attributes of the rendered element.
    pub fn attributes(&self) -> (r: AttributeList)
        ensures
            r@ == attributes_of(*self),
    {
        let mut a = AttributeList::new();
        a.push_text("label", &self.label);
        a.push_text("value", &self.value);
        a.push_toggle("disabled", self.disabled);
        a.push_identity(&self.id, &self.style);
        assert(a@ =~= attributes_of(*self));
        a
    }
}

} // verus!
