//! The kinds of button image that can be asked for.

use crate::theme::Color;
use image::DynamicImage;
use vstd::prelude::*;

verus! {

/// A decoded picture. The library hands such a picture on as it is and never
/// looks inside.
#[verifier::external_type_specification]
#[verifier::external_body]
pub struct ExDynamicImage(DynamicImage);

/// `DynamicImage::clone` makes a picture of its own from the given one.
/// Nothing is claimed of what the copy holds.
pub assume_specification[ <DynamicImage as Clone>::clone ](image: &DynamicImage) -> (copy:
    DynamicImage)
;

/// The description of one button image.
#[derive(Debug, PartialEq)]
pub enum Button {
    /// A vector-graphic icon on a plain background.
    Icon {
        /// The icon's source.
        svg_data: &'static str,
        /// The color behind the icon.
        background: Color,
        /// The color of the icon.
        foreground: Color,
    },
    /// A vector-graphic icon with a line of text.
    IconWithText {
        /// The icon's source.
        svg_data: &'static str,
        /// The text.
        text: String,
        /// The color behind icon and text.
        background: Color,
        /// The color of icon and text.
        foreground: Color,
    },
    /// A line of text on a plain background.
    Text {
        /// The text.
        text: String,
        /// The color behind the text.
        background: Color,
        /// The color of the text.
        foreground: Color,
    },
    /// A picture that is shown as it is.
    CustomImage {
        /// The picture.
        image: DynamicImage,
    },
    /// A gradient between two colors.
    Gradient {
        /// The color in the top left corner.
        start_color: Color,
        /// The color in the bottom right corner.
        end_color: Color,
    },
}

impl Clone for Button {
    /// A description like this one. Where it holds a picture, the copy holds a
    /// copy of the picture; every other description is copied field by field.
    fn clone(&self) -> (copy: Self)
        ensures
            self is CustomImage ==> copy is CustomImage,
            !(self is CustomImage) ==> copy == *self,
    {
        match self {
            Button::Icon { svg_data, background, foreground } => Button::Icon {
                svg_data: *svg_data,
                background: *background,
                foreground: *foreground,
            },
            Button::IconWithText { svg_data, text, background, foreground } => Button::IconWithText {
                svg_data: *svg_data,
                text: text.clone(),
                background: *background,
                foreground: *foreground,
            },
            Button::Text { text, background, foreground } => Button::Text {
                text: text.clone(),
                background: *background,
                foreground: *foreground,
            },
            Button::CustomImage { image } => Button::CustomImage { image: image.clone() },
            Button::Gradient { start_color, end_color } => Button::Gradient {
                start_color: *start_color,
                end_color: *end_color,
            },
        }
    }
}

impl Button {
    /// A text button.
    pub fn text(text: String, background: Color, foreground: Color) -> (button: Self)
        ensures
            button == (Button::Text { text, background, foreground }),
    {
        Button::Text { text, background, foreground }
    }

    /// An icon button.
    pub fn icon(svg_data: &'static str, background: Color, foreground: Color) -> (button: Self)
        ensures
            button == (Button::Icon { svg_data, background, foreground }),
    {
        Button::Icon { svg_data, background, foreground }
    }

    /// A button with an icon and a line of text.
    pub fn icon_with_text(
        svg_data: &'static str,
        text: String,
        background: Color,
        foreground: Color,
    ) -> (button: Self)
        ensures
            button == (Button::IconWithText { svg_data, text, background, foreground }),
    {
        Button::IconWithText { svg_data, text, background, foreground }
    }

    /// A button that shows `image`.
    pub fn custom_image(image: DynamicImage) -> (button: Self)
        ensures
            button == (Button::CustomImage { image }),
    {
        Button::CustomImage { image }
    }

    /// A button that shows a gradient from `start_color` to `end_color`.
    pub fn gradient(start_color: Color, end_color: Color) -> (button: Self)
        ensures
            button == (Button::Gradient { start_color, end_color }),
    {
        Button::Gradient { start_color, end_color }
    }
}

} // verus!
