//! Colors and themes for the cells of a grid.

use crate::view::ButtonState;
use vstd::prelude::*;

verus! {

/// A color as four 8-bit channels.
#[derive(Clone, Copy, Debug, PartialEq, Eq, Structural)]
pub struct Color {
    /// Red.
    pub r: u8,
    /// Green.
    pub g: u8,
    /// Blue.
    pub b: u8,
    /// Alpha; 255 is opaque.
    pub a: u8,
}

impl Color {
    /// The color with the given channels.
    pub fn from_rgba8(r: u8, g: u8, b: u8, a: u8) -> (color: Self)
        ensures
            color == (Color { r, g, b, a }),
    {
        Color { r, g, b, a }
    }
}

/// The colors that the visual states of a cell are painted in.
#[derive(Clone, Copy, Debug, PartialEq, Eq, Structural)]
pub struct Theme {
    /// Background of cells in the default state.
    pub background: Color,
    /// Background of active cells.
    pub active_background: Color,
    /// Background of inactive cells.
    pub inactive_background: Color,
    /// Background of pressed cells.
    pub pressed_background: Color,
    /// Background of cells in the error state.
    pub error_background: Color,
    /// Text and icon color of cells that are not highlighted.
    pub foreground_color: Color,
    /// Text and icon color of active and pressed cells.
    pub active_foreground_color: Color,
}

impl Theme {
    /// The background that this theme gives to a cell in `state`.
    pub open spec fn spec_background_for(self, state: ButtonState) -> Color {
        match state {
            ButtonState::Default => self.background,
            ButtonState::Active => self.active_background,
            ButtonState::Inactive => self.inactive_background,
            ButtonState::Error => self.error_background,
            ButtonState::Pressed => self.pressed_background,
        }
    }

    /// The text and icon color that this theme gives to a cell in `state`:
    /// the highlighted one for active and pressed cells, the plain one otherwise.
    pub open spec fn spec_foreground_for(self, state: ButtonState) -> Color {
        match state {
            ButtonState::Active | ButtonState::Pressed => self.active_foreground_color,
            _ => self.foreground_color,
        }
    }

    /// The dark theme's colors.
    pub open spec fn spec_dark() -> Theme {
        Theme {
            background: Color { r: 20, g: 20, b: 25, a: 255 },
            active_background: Color { r: 235, g: 51, b: 148, a: 255 },
            inactive_background: Color { r: 41, g: 41, b: 51, a: 255 },
            pressed_background: Color { r: 51, g: 217, b: 230, a: 255 },
            error_background: Color { r: 255, g: 89, b: 0, a: 255 },
            foreground_color: Color { r: 242, g: 242, b: 255, a: 255 },
            active_foreground_color: Color { r: 255, g: 255, b: 255, a: 255 },
        }
    }

    /// The light theme's colors.
    pub open spec fn spec_light() -> Theme {
        Theme {
            background: Color { r: 240, g: 240, b: 245, a: 255 },
            active_background: Color { r: 0, g: 122, b: 255, a: 255 },
            inactive_background: Color { r: 200, g: 200, b: 210, a: 255 },
            pressed_background: Color { r: 0, g: 180, b: 180, a: 255 },
            error_background: Color { r: 255, g: 59, b: 48, a: 255 },
            foreground_color: Color { r: 30, g: 30, b: 30, a: 255 },
            active_foreground_color: Color { r: 255, g: 255, b: 255, a: 255 },
        }
    }

    /// A theme with the given colors.
    pub fn new(
        background: Color,
        active_background: Color,
        inactive_background: Color,
        pressed_background: Color,
        error_background: Color,
        foreground_color: Color,
        active_foreground_color: Color,
    ) -> (theme: Self)
        ensures
            theme == (Theme {
                background,
                active_background,
                inactive_background,
                pressed_background,
                error_background,
                foreground_color,
                active_foreground_color,
            }),
    {
        Theme {
            background,
            active_background,
            inactive_background,
            pressed_background,
            error_background,
            foreground_color,
            active_foreground_color,
        }
    }

    /// The dark theme.
    pub fn dark() -> (theme: Self)
        ensures
            theme == Self::spec_dark(),
    {
        Theme {
            background: Color::from_rgba8(20, 20, 25, 255),
            active_background: Color::from_rgba8(235, 51, 148, 255),
            inactive_background: Color::from_rgba8(41, 41, 51, 255),
            pressed_background: Color::from_rgba8(51, 217, 230, 255),
            error_background: Color::from_rgba8(255, 89, 0, 255),
            foreground_color: Color::from_rgba8(242, 242, 255, 255),
            active_foreground_color: Color::from_rgba8(255, 255, 255, 255),
        }
    }

    /// The light theme.
    pub fn light() -> (theme: Self)
        ensures
            theme == Self::spec_light(),
    {
        Theme {
            background: Color::from_rgba8(240, 240, 245, 255),
            active_background: Color::from_rgba8(0, 122, 255, 255),
            inactive_background: Color::from_rgba8(200, 200, 210, 255),
            pressed_background: Color::from_rgba8(0, 180, 180, 255),
            error_background: Color::from_rgba8(255, 59, 48, 255),
            foreground_color: Color::from_rgba8(30, 30, 30, 255),
            active_foreground_color: Color::from_rgba8(255, 255, 255, 255),
        }
    }

    /// The background of a cell in `state`.
    #[verifier::when_used_as_spec(spec_background_for)]
    pub fn background_for(self, state: ButtonState) -> (color: Color)
        ensures
            color == self.spec_background_for(state),
    {
        match state {
            ButtonState::Default => self.background,
            ButtonState::Active => self.active_background,
            ButtonState::Inactive => self.inactive_background,
            ButtonState::Error => self.error_background,
            ButtonState::Pressed => self.pressed_background,
        }
    }

    /// The text and icon color of a cell in `state`.
    #[verifier::when_used_as_spec(spec_foreground_for)]
    pub fn foreground_for(self, state: ButtonState) -> (color: Color)
        ensures
            color == self.spec_foreground_for(state),
    {
        match state {
            ButtonState::Default => self.foreground_color,
            ButtonState::Active => self.active_foreground_color,
            ButtonState::Inactive => self.foreground_color,
            ButtonState::Error => self.foreground_color,
            ButtonState::Pressed => self.active_foreground_color,
        }
    }
}

impl Default for Theme {
    /// The dark theme.
    fn default() -> (theme: Self)
        ensures
            theme == Self::spec_dark(),
    {
        Theme::dark()
    }
}

} // verus!
