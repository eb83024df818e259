//! Styling of the modal: overlay and button colors, body margin, and the
//! appearance each button style resolves to.

use vstd::prelude::*;
use crate::color::Color;

verus! {

/// The different styles a modal button can take.
#[derive(Clone, Copy, Debug, PartialEq, Eq, Structural)]
pub enum ModalButtonStyle {
    /// An ordinary button, drawn with the host's default visuals.
    Plain,
    /// A button highlighted blue.
    Suggested,
    /// A button highlighted red.
    Caution,
}

/// Styling parameters for the modal: the margin around its body, the color
/// of the overlay that dims the background, and the fill and text colors of
/// the suggested and caution button styles.
#[derive(Clone, Copy, Debug, PartialEq, Eq, Structural)]
pub struct ModalStyle {
    /// The margin around the modal body, in points.
    pub body_margin: u32,
    /// The color of the overlay that dims the background.
    pub overlay_color: Color,
    /// The fill color for the caution button style.
    pub caution_button_fill: Color,
    /// The fill color for the suggested button style.
    pub suggested_button_fill: Color,
    /// The text color for the caution button style.
    pub caution_button_text_color: Color,
    /// The text color for the suggested button style.
    pub suggested_button_text_color: Color,
}

impl ModalStyle {
    /// The styling a freshly created modal carries.
    pub open spec fn default_spec() -> ModalStyle {
        ModalStyle {
            body_margin: 5u32,
            overlay_color: Color { r: 0u8, g: 0u8, b: 0u8, a: 200u8 },
            caution_button_fill: Color { r: 87u8, g: 38u8, b: 34u8, a: 255u8 },
            suggested_button_fill: Color { r: 33u8, g: 54u8, b: 84u8, a: 255u8 },
            caution_button_text_color: Color { r: 242u8, g: 148u8, b: 148u8, a: 255u8 },
            suggested_button_text_color: Color { r: 141u8, g: 182u8, b: 242u8, a: 255u8 },
        }
    }
}

impl Default for ModalStyle {
    fn default() -> (s: ModalStyle)
        ensures
            s == ModalStyle::default_spec(),
    {
        ModalStyle {
            body_margin: 5,
            overlay_color: Color::from_rgba_unmultiplied(0, 0, 0, 200),
            caution_button_fill: Color::from_rgb(87, 38, 34),
            suggested_button_fill: Color::from_rgb(33, 54, 84),
            caution_button_text_color: Color::from_rgb(242, 148, 148),
            suggested_button_text_color: Color::from_rgb(141, 182, 242),
        }
    }
}

/// How a modal button is to be drawn: the fill and text colors it overrides,
/// if any. `None` in a field means the host's default visuals are kept.
#[derive(Clone, Copy, Debug, PartialEq, Eq)]
pub struct ButtonAppearance {
    /// The fill color the button overrides, if any.
    pub fill: Option<Color>,
    /// The text color the button overrides, if any.
    pub text_color: Option<Color>,
}

/// The appearance a button of the given style takes under the given styling:
/// a suggested or caution button overrides the fill and text colors with the
/// style's, an ordinary button overrides nothing.
pub open spec fn button_appearance_spec(style: ModalStyle, kind: ModalButtonStyle) -> ButtonAppearance {
    match kind {
        ModalButtonStyle::Suggested => ButtonAppearance {
            fill: Some(style.suggested_button_fill),
            text_color: Some(style.suggested_button_text_color),
        },
        ModalButtonStyle::Caution => ButtonAppearance {
            fill: Some(style.caution_button_fill),
            text_color: Some(style.caution_button_text_color),
        },
        ModalButtonStyle::Plain => ButtonAppearance { fill: None, text_color: None },
    }
}

} // verus!
