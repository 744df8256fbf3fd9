//! The display manager: what is shown, and what has to be painted.
//!
//! The manager owns the present view together with the entry that the view
//! was built for, and the theme. It never touches a device: painting yields a
//! list of commands for whoever holds the device.

use super::button::{Button, ButtonState};
use super::matrix::{flat_index, lemma_coordinates_round_trip, ButtonMatrix};
use crate::button::Button as ButtonImage;
use crate::error::Error;
use crate::navigation::NavigationEntry;
use crate::theme::Theme;
use vstd::prelude::*;
use vstd::string::StringExecFns;

verus! {

/// How many navigation requests of views may wait to be followed. A view
/// that asks while one is waiting has to wait itself.
pub const NAVIGATION_CHANNEL_CAPACITY: usize = 1;

/// One step of painting a grid on a device.
#[derive(Debug, PartialEq)]
pub enum DeviceCommand {
    /// Show `button` on the key with flat index `index`.
    SetButtonImage {
        /// The key's flat index.
        index: usize,
        /// What the key is to show.
        button: ButtonImage,
    },
    /// Send what was set since the last flush to the device.
    Flush,
}

/// The image that `cell` is painted as under `theme`: its text in the colors
/// that the theme gives to its visual state, with its icon if it has one.
pub open spec fn spec_describe(theme: Theme, cell: Button) -> ButtonImage {
    match cell.icon {
        Some(icon) => ButtonImage::IconWithText {
            svg_data: icon,
            text: cell.text,
            background: theme.spec_background_for(cell.state),
            foreground: theme.spec_foreground_for(cell.state),
        },
        None => ButtonImage::Text {
            text: cell.text,
            background: theme.spec_background_for(cell.state),
            foreground: theme.spec_foreground_for(cell.state),
        },
    }
}

/// The image that `cell` is painted as under `theme`.
pub fn describe(theme: &Theme, cell: &Button) -> (image: ButtonImage)
    ensures
        image == spec_describe(*theme, *cell),
{
    let background = theme.background_for(cell.state);
    let foreground = theme.foreground_for(cell.state);
    match cell.icon {
        Some(icon) => ButtonImage::IconWithText {
            svg_data: icon,
            text: cell.text.clone(),
            background,
            foreground,
        },
        None => ButtonImage::Text { text: cell.text.clone(), background, foreground },
    }
}

/// The commands that paint `cells`, a grid of the given shape, under `theme`:
/// one image for each cell, column by column and each column from the top
/// down, and one flush after the last image.
pub open spec fn paint_plan(theme: Theme, cells: Seq<Button>, width: int, height: int) -> Seq<
    DeviceCommand,
> {
    Seq::new(
        (width * height + 1) as nat,
        |step: int|
            if step < width * height {
                let index = flat_index(step / height, step % height, width);
                DeviceCommand::SetButtonImage {
                    index: index as usize,
                    button: spec_describe(theme, cells[index]),
                }
            } else {
                DeviceCommand::Flush
            },
    )
}

/// `cells` with the cell at `index` in the pressed state.
pub open spec fn pressed_at(cells: Seq<Button>, index: int) -> Seq<Button> {
    cells.update(index, Button { state: ButtonState::Pressed, ..cells[index] })
}

/// The owner of what is shown: the present view, the entry it was built for,
/// and the theme it is painted in.
pub struct DisplayManager<const W: usize, const H: usize, N, V> {
    theme: Theme,
    view: V,
    current_navigation: N,
}

impl<const W: usize, const H: usize, N: NavigationEntry, V> DisplayManager<W, H, N, V> {
    /// The theme that cells are painted in.
    pub closed spec fn theme(&self) -> Theme {
        self.theme
    }

    /// The view that is shown.
    pub closed spec fn shown_view(&self) -> V {
        self.view
    }

    /// The entry of the view that is shown.
    pub closed spec fn shown_navigation(&self) -> N {
        self.current_navigation
    }

    /// A manager that shows `view`, the view of the default entry, under
    /// `theme`.
    pub fn new(theme: Theme, view: V) -> (manager: Self)
        ensures
            manager.theme() == theme,
            manager.shown_view() == view,
            call_ensures(N::default, (), manager.shown_navigation()),
    {
        DisplayManager { theme, view, current_navigation: N::default() }
    }

    /// The view that is shown.
    pub fn current_view(&self) -> (view: &V)
        ensures
            *view == self.shown_view(),
    {
        &self.view
    }

    /// Moves to the screen of `navigation_entry`, given the outcome of
    /// building that screen's view. A view that was built replaces the present
    /// one, and the entry is remembered with it. A failure is handed on and
    /// leaves view and entry as they were. Nothing is refreshed or painted
    /// here.
    pub fn navigate_to(&mut self, navigation_entry: N, view: Result<V, Error>) -> (result: Result<
        (),
        Error,
    >)
        ensures
            final(self).theme() == old(self).theme(),
            match view {
                Ok(built) => {
                    &&& result is Ok
                    &&& final(self).shown_view() == built
                    &&& cloned(navigation_entry, final(self).shown_navigation())
                },
                Err(error) => {
                    &&& result == Err::<(), Error>(error)
                    &&& final(self).shown_view() == old(self).shown_view()
                    &&& final(self).shown_navigation() == old(self).shown_navigation()
                },
            },
    {
        match view {
            Ok(built) => {
                self.view = built;
                self.current_navigation = navigation_entry.clone();
                Ok(())
            },
            Err(error) => Err(error),
        }
    }

    /// The entry of the view that is shown.
    pub fn get_current_navigation(&self) -> (result: Result<N, Error>)
        ensures
            result is Ok,
            cloned(self.shown_navigation(), result->Ok_0),
    {
        Ok(self.current_navigation.clone())
    }

    /// The commands that paint `button_matrix` under the manager's theme.
    pub fn render_matrix(&self, button_matrix: &ButtonMatrix<W, H>) -> (commands: Vec<
        DeviceCommand,
    >)
        ensures
            commands@ == paint_plan(self.theme(), button_matrix@, W as int, H as int),
    {
        let mut commands: Vec<DeviceCommand> = Vec::new();
        let size = button_matrix.size();
        let ghost plan = paint_plan(self.theme(), button_matrix@, W as int, H as int);
        let mut x: usize = 0;
        while x < W
            invariant
                size == W * H,
                button_matrix@.len() == W * H,
                x <= W,
                commands@.len() == x * H,
                plan == paint_plan(self.theme(), button_matrix@, W as int, H as int),
                forall|step: int| 0 <= step < commands@.len() ==> commands@[step] == plan[step],
            decreases W - x,
        {
            let mut y: usize = 0;
            while y < H
                invariant
                    size == W * H,
                    button_matrix@.len() == W * H,
                    x < W,
                    y <= H,
                    commands@.len() == x * H + y,
                    plan == paint_plan(self.theme(), button_matrix@, W as int, H as int),
                    forall|step: int| 0 <= step < commands@.len() ==> commands@[step] == plan[step],
                decreases H - y,
            {
                proof {
                    lemma_coordinates_round_trip(x as int, y as int, W as int, H as int);
                    lemma_coordinates_round_trip(y as int, x as int, H as int, W as int);
                    assert(H * W == W * H) by (nonlinear_arith);
                    assert(0 <= y * W) by (nonlinear_arith);
                    assert(0 <= x * H) by (nonlinear_arith);
                }
                let index = y * W + x;
                match button_matrix.get_button_by_index(index) {
                    Some(cell) => {
                        let button = describe(&self.theme, cell);
                        commands.push(DeviceCommand::SetButtonImage { index, button });
                    },
                    None => {},
                }
                y += 1;
            }
            assert((x + 1) * H == x * H + H) by (nonlinear_arith);
            x += 1;
        }
        commands.push(DeviceCommand::Flush);
        assert(commands@ =~= plan);
        commands
    }

    /// Paints the whole view, given the outcome of taking its snapshot. A
    /// failed snapshot is handed on.
    pub fn render(&self, rendered: Result<ButtonMatrix<W, H>, Error>) -> (result: Result<
        Vec<DeviceCommand>,
        Error,
    >)
        ensures
            match rendered {
                Ok(button_matrix) => result is Ok && result->Ok_0@ == paint_plan(
                    self.theme(),
                    button_matrix@,
                    W as int,
                    H as int,
                ),
                Err(error) => result == Err::<Vec<DeviceCommand>, Error>(error),
            },
    {
        match rendered {
            Ok(button_matrix) => Ok(self.render_matrix(&button_matrix)),
            Err(error) => Err(error),
        }
    }

    /// Takes the outcome of refreshing the widgets of the view. A failure is
    /// not fatal: it ends here, and the manager stays as it is.
    pub fn fetch_all(&self, fetched: Result<(), Error>) -> (result: Result<(), Error>)
        ensures
            result is Ok,
    {
        Ok(())
    }

    /// Paints the view with the key `button` shown as pressed, given the
    /// outcome of taking the view's snapshot. No click is routed. A failed
    /// snapshot is handed on, and a key outside the grid is an error.
    pub fn on_press(&self, rendered: Result<ButtonMatrix<W, H>, Error>, button: u8) -> (result:
        Result<Vec<DeviceCommand>, Error>)
        ensures
            match rendered {
                Ok(button_matrix) => if button < W * H {
                    result is Ok && result->Ok_0@ == paint_plan(
                        self.theme(),
                        pressed_at(button_matrix@, button as int),
                        W as int,
                        H as int,
                    )
                } else {
                    result is Err && result->Err_0.is_custom("Button not found"@)
                },
                Err(error) => result == Err::<Vec<DeviceCommand>, Error>(error),
            },
    {
        match rendered {
            Ok(button_matrix) => {
                let mut button_matrix = button_matrix;
                let button_index = button as usize;
                let pressed = match button_matrix.get_button_by_index(button_index) {
                    Some(shown) => shown.updated_state(ButtonState::Pressed),
                    None => {
                        return Err(Error::Custom(String::from_str("Button not found")));
                    },
                };
                let _ = button_matrix.set_button_by_index(button_index, pressed);
                Ok(self.render_matrix(&button_matrix))
            },
            Err(error) => Err(error),
        }
    }

    /// Ends a click on a key: takes the outcome of routing the click and of
    /// whatever the click set off, and the outcome of the snapshot taken
    /// afterwards. A click that failed is not fatal and changes nothing of
    /// what follows: the whole view is painted either way.
    pub fn on_release(
        &self,
        clicked: Result<(), Error>,
        rendered: Result<ButtonMatrix<W, H>, Error>,
    ) -> (result: Result<Vec<DeviceCommand>, Error>)
        ensures
            match rendered {
                Ok(button_matrix) => result is Ok && result->Ok_0@ == paint_plan(
                    self.theme(),
                    button_matrix@,
                    W as int,
                    H as int,
                ),
                Err(error) => result == Err::<Vec<DeviceCommand>, Error>(error),
            },
    {
        self.render(rendered)
    }
}

} // verus!
