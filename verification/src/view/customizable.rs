//! Widgets and the view that is assembled from them cell by cell.
//!
//! A widget here is a state machine without I/O. Whoever owns the effects
//! (asking the outside world for a value, pushing one, running an action)
//! performs them and hands the outcome to the widget, which then decides what
//! it shows next.

use super::button::{is_blank, Button, ButtonState};
use super::matrix::{flat_index, lemma_coordinates_round_trip, lemma_index_in_grid, ButtonMatrix};
use crate::error::Error;
use vstd::prelude::*;
use vstd::string::StringExecFns;

verus! {

/// What every widget can do without waiting: show itself.
pub trait CustomButton {
    /// The button that the widget shows in its present state. A widget that
    /// is to be reasoned about says here what that is.
    open spec fn display(&self) -> Button {
        arbitrary()
    }

    /// A snapshot of what the widget shows now.
    fn get_state(&self) -> (button: Button)
        ensures
            button == self.display(),
    ;
}

/// A widget that runs one action when it is clicked and has no state besides
/// its face.
#[derive(Debug, PartialEq, Eq)]
pub struct ClickButton {
    button: Button,
}

impl ClickButton {
    /// The button that a click button built from `text` and `icon` shows.
    pub open spec fn face(text: String, icon: Option<&'static str>) -> Button {
        Button { text, icon, state: ButtonState::Default, theme: None }
    }

    /// A click button with the given text and icon.
    pub fn new(text: String, icon: Option<&'static str>) -> (widget: Self)
        ensures
            widget.display() == Self::face(text, icon),
    {
        ClickButton { button: Button { text, icon, state: ButtonState::Default, theme: None } }
    }

    /// Refreshing a click button does nothing and always succeeds: the widget
    /// is the same afterwards, and so is what it shows, however often it is
    /// refreshed.
    pub fn fetch(&mut self) -> (result: Result<(), Error>)
        ensures
            result is Ok,
            *final(self) == *old(self),
            final(self).display() == old(self).display(),
    {
        Ok(())
    }

    /// Takes the outcome of the action that the click ran and hands it on.
    /// The widget itself stays as it is, whether the action failed or not.
    pub fn click(&mut self, outcome: Result<(), Error>) -> (result: Result<(), Error>)
        ensures
            result == outcome,
            *final(self) == *old(self),
            final(self).display() == old(self).display(),
    {
        outcome
    }
}

impl CustomButton for ClickButton {
    closed spec fn display(&self) -> Button {
        self.button
    }

    fn get_state(&self) -> (button: Button) {
        self.button.clone()
    }
}

/// A widget with two faces, one for each value of a flag that mirrors a
/// setting of the outside world.
#[derive(Debug, PartialEq, Eq)]
pub struct ToggleButton {
    button: Button,
    active_button: Button,
    active: bool,
}

impl ToggleButton {
    /// The two faces can be told apart by their visual state: the face for
    /// the flag being on is in the active state, the other in the default one.
    #[verifier::type_invariant]
    pub closed spec fn wf(&self) -> bool {
        &&& self.button.state == ButtonState::Default
        &&& self.active_button.state == ButtonState::Active
    }

    /// Whether the flag is on.
    pub closed spec fn active(&self) -> bool {
        self.active
    }

    /// The face shown while the flag is off.
    pub closed spec fn inactive_face(&self) -> Button {
        self.button
    }

    /// The face shown while the flag is on.
    pub closed spec fn active_face(&self) -> Button {
        self.active_button
    }

    /// This widget after it learned that the setting it mirrors is `value`.
    pub closed spec fn fetched(self, value: bool) -> Self {
        ToggleButton { active: value, ..self }
    }

    /// This widget after a click that went through.
    pub closed spec fn clicked(self) -> Self {
        ToggleButton { active: !self.active, ..self }
    }

    /// A toggle button that shows `text` and `icon` either way, in the default
    /// state while off and in the active state while on. It starts off.
    pub fn new(text: String, icon: Option<&'static str>) -> (widget: Self)
        ensures
            widget.wf(),
            !widget.active(),
            widget.inactive_face() == (Button {
                text,
                icon,
                state: ButtonState::Default,
                theme: None,
            }),
            widget.active_face() == (Button { text, icon, state: ButtonState::Active, theme: None }),
    {
        let active_text = text.clone();
        ToggleButton {
            button: Button { text, icon, state: ButtonState::Default, theme: None },
            active_button: Button {
                text: active_text,
                icon,
                state: ButtonState::Active,
                theme: None,
            },
            active: false,
        }
    }

    /// This widget with another face for the time its flag is on.
    pub fn when_active(self, text: String, icon: Option<&'static str>) -> (widget: Self)
        ensures
            widget.wf(),
            widget.active() == self.active(),
            widget.inactive_face() == self.inactive_face(),
            widget.active_face() == (Button { text, icon, state: ButtonState::Active, theme: None }),
    {
        proof {
            use_type_invariant(&self);
        }
        ToggleButton {
            button: self.button,
            active_button: Button { text, icon, state: ButtonState::Active, theme: None },
            active: self.active,
        }
    }

    /// Whether the flag is on.
    pub fn is_active(&self) -> (active: bool)
        ensures
            active == self.active(),
    {
        self.active
    }

    /// The value that a click has to push to the outside world: the opposite
    /// of the present flag.
    pub fn pending_value(&self) -> (value: bool)
        ensures
            value == !self.active(),
    {
        !self.active
    }

    /// Takes the outcome of asking the outside world for the flag. A value
    /// replaces the flag, whatever it was; a failure leaves the widget as it is
    /// and is handed on.
    pub fn fetch(&mut self, fetched: Result<bool, Error>) -> (result: Result<(), Error>)
        ensures
            final(self).wf(),
            match fetched {
                Ok(value) => result is Ok && *final(self) == old(self).fetched(value),
                Err(error) => result == Err::<(), Error>(error) && *final(self) == *old(self),
            },
    {
        proof {
            use_type_invariant(&*self);
        }
        match fetched {
            Ok(value) => {
                self.active = value;
                Ok(())
            },
            Err(error) => Err(error),
        }
    }

    /// Takes the outcome of pushing `pending_value()` to the outside world.
    /// After a push that succeeded the flag is the opposite of what it was;
    /// after one that failed the widget is unchanged, and the failure is
    /// handed on.
    pub fn click(&mut self, pushed: Result<(), Error>) -> (result: Result<(), Error>)
        ensures
            final(self).wf(),
            result == pushed,
            pushed is Ok ==> *final(self) == old(self).clicked(),
            pushed is Err ==> *final(self) == *old(self),
    {
        proof {
            use_type_invariant(&*self);
        }
        if pushed.is_ok() {
            self.active = !self.active;
        }
        pushed
    }

    /// What a refresh does to a toggle button: the flag becomes the value that
    /// was fetched, whatever it was before, and both faces stay. So the widget
    /// then shows its active face if the value is `true` and its other face if
    /// not, and it is in the active state exactly if the value is `true`.
    pub proof fn lemma_fetched(self, value: bool)
        requires
            self.wf(),
        ensures
            self.fetched(value).wf(),
            self.fetched(value).active() == value,
            self.fetched(value).inactive_face() == self.inactive_face(),
            self.fetched(value).active_face() == self.active_face(),
            value ==> self.fetched(value).display() == self.active_face(),
            !value ==> self.fetched(value).display() == self.inactive_face(),
            self.fetched(value).display().state == ButtonState::Active <==> value,
    {
    }

    /// What a click that went through does to a toggle button: the flag
    /// becomes the opposite of what it was, and both faces stay. A second such
    /// click brings the widget back to where it was.
    pub proof fn lemma_clicked(self)
        requires
            self.wf(),
        ensures
            self.clicked().wf(),
            self.clicked().active() == !self.active(),
            self.clicked().inactive_face() == self.inactive_face(),
            self.clicked().active_face() == self.active_face(),
            self.clicked().display().state == ButtonState::Active <==> !self.active(),
            self.clicked().clicked() == self,
    {
    }

    /// A widget shows its active face, which is in the active state, exactly
    /// while its flag is on.
    pub proof fn lemma_display(self)
        requires
            self.wf(),
        ensures
            self.active_face().state == ButtonState::Active,
            self.inactive_face().state == ButtonState::Default,
            self.display().state == ButtonState::Active <==> self.active(),
            self.display() == self.active_face() <==> self.active(),
    {
    }
}

impl CustomButton for ToggleButton {
    open spec fn display(&self) -> Button {
        if self.active() {
            self.active_face()
        } else {
            self.inactive_face()
        }
    }

    fn get_state(&self) -> (button: Button) {
        if self.active {
            self.active_button.clone()
        } else {
            self.button.clone()
        }
    }
}

/// What one occupied cell of a customizable view holds.
#[derive(Debug, PartialEq, Eq)]
pub enum CustomizableViewButton<N, B> {
    /// A link to another screen, with the button that stands for it.
    Navigation {
        /// The screen that a click leads to.
        navigation: N,
        /// The button to display.
        button: Button,
    },
    /// A widget.
    Button(B),
}

/// Where a click on a cell has to go.
#[derive(Debug, PartialEq, Eq)]
pub enum ClickRoute<N> {
    /// The cell links to a screen: this entry is to be sent, once, as a
    /// navigation request.
    Navigate(N),
    /// The cell holds a widget: the widget in column `x` of row `y` is to be
    /// clicked.
    Widget {
        /// The widget's column.
        x: usize,
        /// The widget's row.
        y: usize,
    },
    /// The cell is empty: nothing is to be done.
    Unoccupied,
}

/// Whether `cell` holds a widget.
pub open spec fn holds_widget<N, B>(cell: Option<CustomizableViewButton<N, B>>) -> bool {
    cell matches Some(CustomizableViewButton::Button(_))
}

/// Whether `button` is what `cell` shows: the empty button for an empty cell,
/// the link's own button for a link, the widget's present face for a widget.
pub open spec fn shows<N, B: CustomButton>(
    cell: Option<CustomizableViewButton<N, B>>,
    button: Button,
) -> bool {
    match cell {
        None => is_blank(button),
        Some(CustomizableViewButton::Navigation { navigation, button: face }) => button == face,
        Some(CustomizableViewButton::Button(widget)) => button == widget.display(),
    }
}

/// A view of `W` columns and `H` rows whose cells are filled one by one with
/// links and widgets.
///
/// The view of a `CustomizableView` is the sequence of its cells row by row,
/// `None` for an empty cell: the cell in column `x` of row `y` stands at
/// `flat_index(x, y, W)`.
pub struct CustomizableView<const W: usize, const H: usize, N, B> {
    matrix: Vec<Option<CustomizableViewButton<N, B>>>,
}

impl<const W: usize, const H: usize, N, B> View for CustomizableView<W, H, N, B> {
    type V = Seq<Option<CustomizableViewButton<N, B>>>;

    closed spec fn view(&self) -> Self::V {
        self.matrix@
    }
}

impl<const W: usize, const H: usize, N, B> CustomizableView<W, H, N, B> {
    /// A view holds exactly one cell, empty or not, for each place of its shape.
    #[verifier::type_invariant]
    pub open spec fn wf(&self) -> bool {
        self@.len() == W * H
    }

    /// A view in which every cell is empty.
    pub fn new() -> (view: Self)
        ensures
            view.wf(),
            forall|i: int| 0 <= i < W * H ==> (#[trigger] view@[i]) is None,
    {
        let mut matrix: Vec<Option<CustomizableViewButton<N, B>>> = Vec::new();
        let mut y: usize = 0;
        while y < H
            invariant
                y <= H,
                matrix@.len() == y * W,
                forall|i: int| 0 <= i < matrix@.len() ==> (#[trigger] matrix@[i]) is None,
            decreases H - y,
        {
            let mut x: usize = 0;
            while x < W
                invariant
                    y < H,
                    x <= W,
                    matrix@.len() == y * W + x,
                    forall|i: int| 0 <= i < matrix@.len() ==> (#[trigger] matrix@[i]) is None,
                decreases W - x,
            {
                matrix.push(None);
                x += 1;
            }
            assert((y + 1) * W == y * W + W) by (nonlinear_arith);
            y += 1;
        }
        CustomizableView { matrix }
    }

    /// Replaces the cell at `index`, which lies inside the grid.
    fn put(&mut self, index: usize, cell: Option<CustomizableViewButton<N, B>>)
        requires
            index < W * H,
        ensures
            final(self)@ == old(self)@.update(index as int, cell),
        no_unwind
    {
        proof {
            use_type_invariant(&*self);
        }
        self.matrix[index] = cell;
    }

    /// Puts `cell` into column `x` of row `y`. The place is checked here, when
    /// the cell is assigned: outside the grid nothing changes and an error is
    /// returned.
    fn assign(&mut self, x: usize, y: usize, cell: Option<CustomizableViewButton<N, B>>) -> (result:
        Result<(), Error>)
        ensures
            final(self).wf(),
            x < W && y < H ==> result is Ok && final(self)@ == old(self)@.update(
                flat_index(x as int, y as int, W as int),
                cell,
            ),
            x >= W || y >= H ==> final(self)@ == old(self)@ && result is Err
                && result->Err_0.is_custom("Row or column out of bounds"@),
    {
        proof {
            use_type_invariant(&*self);
        }
        if x < W && y < H {
            proof {
                lemma_coordinates_round_trip(x as int, y as int, W as int, H as int);
                assert(self.matrix.len() == W * H);
                assert(0 <= y * W) by (nonlinear_arith);
            }
            self.put(y * W + x, cell);
            Ok(())
        } else {
            Err(Error::Custom(String::from_str("Row or column out of bounds")))
        }
    }

    /// Puts the widget `button` into column `x` of row `y`, in place of what
    /// the cell held.
    pub fn set_button(&mut self, x: usize, y: usize, button: B) -> (result: Result<(), Error>)
        ensures
            final(self).wf(),
            x < W && y < H ==> result is Ok && final(self)@ == old(self)@.update(
                flat_index(x as int, y as int, W as int),
                Some(CustomizableViewButton::Button(button)),
            ),
            x >= W || y >= H ==> final(self)@ == old(self)@ && result is Err
                && result->Err_0.is_custom("Row or column out of bounds"@),
    {
        self.assign(x, y, Some(CustomizableViewButton::Button(button)))
    }

    /// Puts a link to `navigation` into column `x` of row `y`, shown as a
    /// button with `text` and `icon` in the default state.
    pub fn set_navigation(
        &mut self,
        x: usize,
        y: usize,
        navigation: N,
        text: String,
        icon: Option<&'static str>,
    ) -> (result: Result<(), Error>)
        ensures
            final(self).wf(),
            x < W && y < H ==> result is Ok && final(self)@ == old(self)@.update(
                flat_index(x as int, y as int, W as int),
                Some(
                    CustomizableViewButton::Navigation {
                        navigation,
                        button: Button { text, icon, state: ButtonState::Default, theme: None },
                    },
                ),
            ),
            x >= W || y >= H ==> final(self)@ == old(self)@ && result is Err
                && result->Err_0.is_custom("Row or column out of bounds"@),
    {
        self.assign(
            x,
            y,
            Some(
                CustomizableViewButton::Navigation {
                    navigation,
                    button: Button { text, icon, state: ButtonState::Default, theme: None },
                },
            ),
        )
    }

    /// Empties the cell in column `x` of row `y`.
    pub fn remove_button(&mut self, x: usize, y: usize) -> (result: Result<(), Error>)
        ensures
            final(self).wf(),
            x < W && y < H ==> result is Ok && final(self)@ == old(self)@.update(
                flat_index(x as int, y as int, W as int),
                None,
            ),
            x >= W || y >= H ==> final(self)@ == old(self)@ && result is Err
                && result->Err_0.is_custom("Row or column out of bounds"@),
    {
        self.assign(x, y, None)
    }

    /// The widget in column `x` of row `y`, open to change, or `None` where
    /// the cell holds no widget or lies outside the grid. Whatever the caller
    /// makes of the widget is what the cell holds afterwards; all other cells
    /// stay as they are.
    pub fn get_button_mut(&mut self, x: usize, y: usize) -> (widget: Option<&mut B>)
        ensures
            match widget {
                Some(held) => {
                    &&& x < W && y < H
                    &&& old(self)@[flat_index(x as int, y as int, W as int)] == Some(
                        CustomizableViewButton::<N, B>::Button(*held),
                    )
                    &&& final(self)@ == old(self)@.update(
                        flat_index(x as int, y as int, W as int),
                        Some(CustomizableViewButton::Button(*final(held))),
                    )
                },
                None => {
                    &&& final(self)@ == old(self)@
                    &&& x < W && y < H ==> !holds_widget(
                        old(self)@[flat_index(x as int, y as int, W as int)],
                    )
                },
            },
        no_unwind
    {
        proof {
            use_type_invariant(&*self);
        }
        if x < W && y < H {
            proof {
                lemma_coordinates_round_trip(x as int, y as int, W as int, H as int);
                assert(self.matrix.len() == W * H);
                assert(0 <= y * W) by (nonlinear_arith);
            }
            match &mut self.matrix[y * W + x] {
                Some(CustomizableViewButton::Button(widget)) => Some(widget),
                _ => None,
            }
        } else {
            None
        }
    }

    /// What the cell in column `x` of row `y` holds, or `None` where the cell
    /// is empty or lies outside the grid.
    pub fn get_button(&self, x: usize, y: usize) -> (cell: Option<&CustomizableViewButton<N, B>>)
        ensures
            self.wf(),
            x < W && y < H ==> match self@[flat_index(x as int, y as int, W as int)] {
                Some(held) => cell == Some(&held),
                None => cell is None,
            },
            x >= W || y >= H ==> cell is None,
    {
        proof {
            use_type_invariant(self);
        }
        if x < W && y < H {
            proof {
                lemma_coordinates_round_trip(x as int, y as int, W as int, H as int);
                assert(self.matrix.len() == W * H);
                assert(0 <= y * W) by (nonlinear_arith);
            }
            self.matrix[y * W + x].as_ref()
        } else {
            None
        }
    }
}

impl<const W: usize, const H: usize, N, B> Default for CustomizableView<W, H, N, B> {
    /// A view in which every cell is empty.
    fn default() -> (view: Self)
        ensures
            view.wf(),
            forall|i: int| 0 <= i < W * H ==> (#[trigger] view@[i]) is None,
    {
        CustomizableView::new()
    }
}

impl<const W: usize, const H: usize, N, B: CustomButton> CustomizableView<W, H, N, B> {
    /// A snapshot of the whole view: for each cell the button that it shows.
    /// No widget is asked to do anything but show itself, and the snapshot
    /// always succeeds.
    pub fn render(&self) -> (result: Result<ButtonMatrix<W, H>, Error>)
        ensures
            self.wf(),
            result is Ok,
            result->Ok_0.wf(),
            forall|i: int| 0 <= i < W * H ==> shows(self@[i], #[trigger] result->Ok_0@[i]),
    {
        proof {
            use_type_invariant(self);
        }
        let mut button_matrix = ButtonMatrix::<W, H>::new();
        let size = self.matrix.len();
        let mut index: usize = 0;
        while index < size
            invariant
                size == W * H,
                self.matrix@.len() == W * H,
                index <= size,
                button_matrix.wf(),
                forall|i: int| 0 <= i < index ==> shows(self@[i], #[trigger] button_matrix@[i]),
                forall|i: int| index <= i < W * H ==> is_blank(#[trigger] button_matrix@[i]),
            decreases size - index,
        {
            match &self.matrix[index] {
                Some(CustomizableViewButton::Navigation { button, .. }) => {
                    let _ = button_matrix.set_button_by_index(index, button.clone());
                },
                Some(CustomizableViewButton::Button(widget)) => {
                    let _ = button_matrix.set_button_by_index(index, widget.get_state());
                },
                None => {},
            }
            index += 1;
        }
        Ok(button_matrix)
    }
}

impl<const W: usize, const H: usize, N: Clone, B> CustomizableView<W, H, N, B> {
    /// Whether `route` is where a click on `cell`, which has the flat index
    /// `index`, has to go: to the linked screen for a link, to the widget at
    /// the cell's place for a widget, nowhere for an empty cell.
    pub open spec fn routes(
        cell: Option<CustomizableViewButton<N, B>>,
        index: int,
        route: ClickRoute<N>,
    ) -> bool {
        match cell {
            None => route == ClickRoute::<N>::Unoccupied,
            Some(CustomizableViewButton::Navigation { navigation, button }) => route matches ClickRoute::Navigate(
                entry,
            ) && cloned(navigation, entry),
            Some(CustomizableViewButton::Button(_)) => route == (ClickRoute::<N>::Widget {
                x: (index % (W as int)) as usize,
                y: (index / (W as int)) as usize,
            }),
        }
    }

    /// Routes a click on the cell with flat index `index`. The view itself
    /// does not change: a link yields its entry, a widget its place.
    /// An index outside the grid is an error.
    pub fn on_click(&self, index: u8) -> (result: Result<ClickRoute<N>, Error>)
        ensures
            self.wf(),
            index < W * H ==> result is Ok && Self::routes(
                self@[index as int],
                index as int,
                result->Ok_0,
            ),
            index >= W * H ==> result == Err::<ClickRoute<N>, Error>(
                Error::ButtonIndexOutOfBounds(index as usize),
            ),
    {
        proof {
            use_type_invariant(self);
        }
        let index = index as usize;
        if index < self.matrix.len() {
            proof {
                lemma_index_in_grid(index as int, W as int, H as int);
            }
            let x = index % W;
            let y = index / W;
            match &self.matrix[y * W + x] {
                Some(CustomizableViewButton::Navigation { navigation, .. }) => Ok(
                    ClickRoute::Navigate(navigation.clone()),
                ),
                Some(CustomizableViewButton::Button(_)) => Ok(ClickRoute::Widget { x, y }),
                None => Ok(ClickRoute::Unoccupied),
            }
        } else {
            Err(Error::ButtonIndexOutOfBounds(index))
        }
    }
}

impl<const W: usize, const H: usize, N, B> CustomizableView<W, H, N, B> {
    /// Whether the cell in column `x` of row `y` holds a widget.
    pub open spec fn widget_at(&self, x: int, y: int) -> bool {
        holds_widget(self@[flat_index(x, y, W as int)])
    }

    /// The places of the widgets among the first `count` cells of the scan
    /// that goes down the first column, then down the second, and so on: the
    /// cell in column `x` of row `y` is cell number `x * H + y` of that scan.
    pub open spec fn widgets_before(&self, count: nat) -> Seq<(usize, usize)>
        decreases count,
    {
        if count == 0 {
            Seq::empty()
        } else {
            let last = (count - 1) as int;
            let x = last / (H as int);
            let y = last % (H as int);
            if self.widget_at(x, y) {
                self.widgets_before((count - 1) as nat).push((x as usize, y as usize))
            } else {
                self.widgets_before((count - 1) as nat)
            }
        }
    }

    /// The places of the widgets that a refresh has to visit, in the order in
    /// which it visits them: column by column, each column from the top down.
    /// Links and empty cells are left out. The caller refreshes the widgets in
    /// this order and gives up at the first one that fails.
    pub fn fetch_all(&self) -> (plan: Vec<(usize, usize)>)
        ensures
            self.wf(),
            plan@ == self.widgets_before((W * H) as nat),
    {
        proof {
            use_type_invariant(self);
        }
        let mut plan: Vec<(usize, usize)> = Vec::new();
        let mut x: usize = 0;
        while x < W
            invariant
                self.matrix@.len() == W * H,
                x <= W,
                plan@ == self.widgets_before((x * H) as nat),
            decreases W - x,
        {
            let mut y: usize = 0;
            while y < H
                invariant
                    self.matrix@.len() == W * H,
                    x < W,
                    y <= H,
                    plan@ == self.widgets_before((x * H + y) as nat),
                decreases H - y,
            {
                proof {
                    lemma_coordinates_round_trip(x as int, y as int, W as int, H as int);
                    lemma_coordinates_round_trip(y as int, x as int, H as int, W as int);
                    assert(H * W == W * H) by (nonlinear_arith);
                    assert(self.matrix.len() == W * H);
                    assert(0 <= y * W) by (nonlinear_arith);
                    assert(0 <= x * H) by (nonlinear_arith);
                }
                match &self.matrix[y * W + x] {
                    Some(CustomizableViewButton::Button(_)) => {
                        plan.push((x, y));
                    },
                    _ => {},
                }
                y += 1;
            }
            assert((x + 1) * H == x * H + H) by (nonlinear_arith);
            x += 1;
        }
        assert(x * H == W * H);
        plan
    }

    /// What a refresh does next, given the plan of `fetch_all`, the number of
    /// widgets refreshed so far and the outcome of the last refresh. After a
    /// failure the pass is given up, and the failure is its outcome: the
    /// widgets that follow in the plan are not refreshed. After a success the
    /// next widget of the plan is due, or the pass is over.
    pub fn fetch_next(plan: &Vec<(usize, usize)>, refreshed: usize, last: Result<(), Error>) -> (next:
        Result<Option<(usize, usize)>, Error>)
        ensures
            match last {
                Err(error) => next == Err::<Option<(usize, usize)>, Error>(error),
                Ok(_) => next == Ok::<Option<(usize, usize)>, Error>(
                    if refreshed < plan@.len() {
                        Some(plan@[refreshed as int])
                    } else {
                        None
                    },
                ),
            },
    {
        match last {
            Err(error) => Err(error),
            Ok(_) => if refreshed < plan.len() {
                Ok(Some(plan[refreshed]))
            } else {
                Ok(None)
            },
        }
    }

    /// What `widgets_before` lists: widgets only, each inside the grid and
    /// among the cells counted, in the order of the scan, and every widget
    /// among the cells counted.
    pub proof fn lemma_widgets_before(&self, count: nat)
        requires
            count <= W * H,
        ensures
            forall|k: int|
                0 <= k < self.widgets_before(count).len() ==> {
                    let place = #[trigger] self.widgets_before(count)[k];
                    &&& place.0 < W
                    &&& place.1 < H
                    &&& place.0 * H + place.1 < count
                    &&& self.widget_at(place.0 as int, place.1 as int)
                },
            forall|j: int, k: int|
                0 <= j < k < self.widgets_before(count).len() ==> {
                    let first = #[trigger] self.widgets_before(count)[j];
                    let second = #[trigger] self.widgets_before(count)[k];
                    first.0 * H + first.1 < second.0 * H + second.1
                },
            forall|x: int, y: int|
                0 <= x < W && 0 <= y < H && x * H + y < count && #[trigger] self.widget_at(x, y)
                    ==> self.widgets_before(count).contains((x as usize, y as usize)),
        decreases count,
    {
        if count > 0 {
            let before = self.widgets_before((count - 1) as nat);
            let all = self.widgets_before(count);
            self.lemma_widgets_before((count - 1) as nat);
            let last = (count - 1) as int;
            assert(H * W == W * H) by (nonlinear_arith);
            lemma_index_in_grid(last, H as int, W as int);
            let lx = last / (H as int);
            let ly = last % (H as int);
            assert(lx * H + ly == last);
            if self.widget_at(lx, ly) {
                assert(all == before.push((lx as usize, ly as usize)));
                assert(all[before.len() as int] == (lx as usize, ly as usize));
            } else {
                assert(all == before);
            }
            assert forall|x: int, y: int|
                0 <= x < W && 0 <= y < H && x * H + y < count && #[trigger] self.widget_at(
                    x,
                    y,
                ) implies all.contains((x as usize, y as usize)) by {
                if x * H + y < count - 1 {
                    let k = choose|k: int|
                        0 <= k < before.len() && before[k] == (x as usize, y as usize);
                    assert(all[k] == (x as usize, y as usize));
                } else {
                    lemma_coordinates_round_trip(y, x, H as int, W as int);
                    assert(x == lx && y == ly);
                    assert(all[before.len() as int] == (x as usize, y as usize));
                }
            }
        }
    }

    /// One refresh visits every widget of the view exactly once and nothing
    /// else: a place inside the grid is in the plan if and only if its cell
    /// holds a widget, and no place is in the plan twice.
    pub proof fn lemma_fetch_all_visits_each_widget_once(&self)
        requires
            self.wf(),
        ensures
            forall|x: int, y: int|
                0 <= x < W && 0 <= y < H ==> (#[trigger] self.widget_at(x, y)
                    <==> self.widgets_before((W * H) as nat).contains((x as usize, y as usize))),
            forall|k: int|
                0 <= k < self.widgets_before((W * H) as nat).len() ==> {
                    let place = #[trigger] self.widgets_before((W * H) as nat)[k];
                    place.0 < W && place.1 < H
                },
            self.widgets_before((W * H) as nat).no_duplicates(),
    {
        let plan = self.widgets_before((W * H) as nat);
        self.lemma_widgets_before((W * H) as nat);
        assert(H * W == W * H) by (nonlinear_arith);
        assert forall|x: int, y: int| 0 <= x < W && 0 <= y < H implies (#[trigger] self.widget_at(
            x,
            y,
        ) <==> plan.contains((x as usize, y as usize))) by {
            lemma_coordinates_round_trip(y, x, H as int, W as int);
            assert(x * H + y < W * H);
            if self.widget_at(x, y) {
                assert(plan.contains((x as usize, y as usize)));
            }
            if plan.contains((x as usize, y as usize)) {
                let k = choose|k: int| 0 <= k < plan.len() && plan[k] == (x as usize, y as usize);
                assert(self.widget_at(plan[k].0 as int, plan[k].1 as int));
            }
        }
        assert forall|j: int, k: int| 0 <= j < plan.len() && 0 <= k < plan.len() && j != k implies plan[j]
            != plan[k] by {
            if j < k {
                assert(plan[j].0 * H + plan[j].1 < plan[k].0 * H + plan[k].1);
            } else {
                assert(plan[k].0 * H + plan[k].1 < plan[j].0 * H + plan[j].1);
            }
        }
    }
}

} // verus!
