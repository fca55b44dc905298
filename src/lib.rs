//! Typed bindings for the Material Design custom elements: for each widget, a
//! plain description of its properties and the exact list of HTML attributes
//! that rendering it puts on the custom element.
pub mod attributes;
pub mod customizable;

pub mod button;
pub mod checkbox;
pub mod chip;
pub mod circular_progress;
pub mod color;
pub mod dialog;
pub mod divider;
pub mod fab;
pub mod field;
pub mod focus;
pub mod icon_button;
pub mod linear_progress;
pub mod list_item;
pub mod menu;
pub mod menu_item;
pub mod progress;
pub mod radio;
pub mod ripple;
pub mod select;
pub mod slider;
pub mod sub_menu;
pub mod switch;
pub mod tab;
pub mod tabs;
pub mod textfield;

pub use attributes::{Attribute, AttributeList};
pub use button::ButtonVariants;
pub use chip::ChipKind;
pub use customizable::CustomizableProps;
pub use fab::{FabSize, FabStyle, FabVariant};
pub use icon_button::IconButtonVariants;
