//! Display records for single grid cells.

use crate::theme::Theme;
use vstd::prelude::*;

verus! {

/// The visual state of a cell.
#[derive(Clone, Copy, Debug, PartialEq, Eq, Structural)]
pub enum ButtonState {
    /// The default state.
    Default,
    /// The cell is pressed.
    Pressed,
    /// The cell is active.
    Active,
    /// The cell is inactive.
    Inactive,
    /// The cell is in an error state.
    Error,
}

/// A display snapshot of one cell: its label, its icon and its visual state.
///
/// A `Button` never refers to application state. It is what a widget or a
/// navigation link looks like at the moment it was asked.
#[derive(Debug, PartialEq, Eq)]
pub struct Button {
    /// The text to display.
    pub text: String,
    /// The icon to display, as vector-graphic source.
    pub icon: Option<&'static str>,
    /// The visual state.
    pub state: ButtonState,
    /// A theme that replaces the active one for this cell, if any.
    pub theme: Option<Theme>,
}

/// Whether `button` is the empty button: no text, no icon, the default state,
/// no theme of its own.
pub open spec fn is_blank(button: Button) -> bool {
    &&& button.text@ == Seq::<char>::empty()
    &&& button.icon is None
    &&& button.state == ButtonState::Default
    &&& button.theme is None
}

impl Clone for Button {
    fn clone(&self) -> (copy: Self)
        ensures
            copy == *self,
    {
        Button { text: self.text.clone(), icon: self.icon, state: self.state, theme: self.theme }
    }
}

impl Button {
    /// A button with the given text, icon and state, and no theme of its own.
    pub fn new(text: String, icon: Option<&'static str>, state: ButtonState) -> (button: Self)
        ensures
            button == (Button { text, icon, state, theme: None }),
    {
        Button { text, icon, state, theme: None }
    }

    /// A button with the given text, in the default state.
    pub fn text(text: String) -> (button: Self)
        ensures
            button == (Button { text, icon: None, state: ButtonState::Default, theme: None }),
    {
        Button { text, icon: None, state: ButtonState::Default, theme: None }
    }

    /// A button with the given text and icon, in the default state.
    pub fn with_icon(text: String, icon: &'static str) -> (button: Self)
        ensures
            button == (Button {
                text,
                icon: Some(icon),
                state: ButtonState::Default,
                theme: None,
            }),
    {
        Button { text, icon: Some(icon), state: ButtonState::Default, theme: None }
    }

    /// A button with the given text and state, without an icon.
    pub fn with_state(text: String, state: ButtonState) -> (button: Self)
        ensures
            button == (Button { text, icon: None, state, theme: None }),
    {
        Button { text, icon: None, state, theme: None }
    }

    /// A button with the given text, icon and state.
    pub fn with_icon_and_state(text: String, icon: &'static str, state: ButtonState) -> (button:
        Self)
        ensures
            button == (Button { text, icon: Some(icon), state, theme: None }),
    {
        Button { text, icon: Some(icon), state, theme: None }
    }

    /// A copy of this button that shows `text` instead.
    pub fn updated_text(&self, text: String) -> (button: Self)
        ensures
            button == (Button { text, ..*self }),
    {
        Button { text, icon: self.icon, state: self.state, theme: self.theme }
    }

    /// A copy of this button that shows `icon` instead.
    pub fn updated_icon(&self, icon: &'static str) -> (button: Self)
        ensures
            button == (Button { icon: Some(icon), ..*self }),
    {
        Button { text: self.text.clone(), icon: Some(icon), state: self.state, theme: self.theme }
    }

    /// A copy of this button in the visual state `state`.
    pub fn updated_state(&self, state: ButtonState) -> (button: Self)
        ensures
            button == (Button { state, ..*self }),
    {
        Button { text: self.text.clone(), icon: self.icon, state, theme: self.theme }
    }

    /// This button with `theme` as its own theme.
    pub fn with_theme(self, theme: Theme) -> (button: Self)
        ensures
            button == (Button { theme: Some(theme), ..self }),
    {
        Button { text: self.text, icon: self.icon, state: self.state, theme: Some(theme) }
    }
}

impl Default for Button {
    /// The empty button: no text, no icon, the default state.
    fn default() -> (button: Self)
        ensures
            is_blank(button),
    {
        Button { text: String::new(), icon: None, state: ButtonState::Default, theme: None }
    }
}

} // verus!
