//! The fixed-shape grid of display records.

use super::button::{is_blank, Button};
use crate::error::Error;
use vstd::prelude::*;
use vstd::string::StringExecFns;

verus! {

/// The flat index of the cell in column `x` of row `y`, in a grid `width` cells wide.
pub open spec fn flat_index(x: int, y: int, width: int) -> int {
    y * width + x
}

/// The column of the cell with flat index `index`.
pub open spec fn column_of(index: int, width: int) -> int {
    index % width
}

/// The row of the cell with flat index `index`.
pub open spec fn row_of(index: int, width: int) -> int {
    index / width
}

/// Splitting a flat index into column and row and joining them again gives the
/// index back, and the column lies inside the grid's width.
pub proof fn lemma_index_round_trip(index: int, width: int)
    requires
        0 <= index,
        0 < width,
    ensures
        0 <= column_of(index, width) < width,
        0 <= row_of(index, width),
        flat_index(column_of(index, width), row_of(index, width), width) == index,
{
    assert(index == width * (index / width) + index % width && 0 <= index % width < width
        && 0 <= index / width) by (nonlinear_arith)
        requires
            0 <= index,
            0 < width,
    ;
    assert(width * (index / width) == (index / width) * width) by (nonlinear_arith);
}

/// A flat index below `width * height` splits into a column below `width` and
/// a row below `height`.
pub proof fn lemma_index_in_grid(index: int, width: int, height: int)
    requires
        0 <= index < width * height,
        0 <= width,
        0 <= height,
    ensures
        0 < width,
        0 <= column_of(index, width) < width,
        0 <= row_of(index, width) < height,
        flat_index(column_of(index, width), row_of(index, width), width) == index,
{
    assert(0 < width) by (nonlinear_arith)
        requires
            0 <= index < width * height,
            0 <= width,
            0 <= height,
    ;
    lemma_index_round_trip(index, width);
    let row = index / width;
    assert(row < height) by (nonlinear_arith)
        requires
            row * width + index % width == index,
            0 <= index % width,
            index < width * height,
            0 < width,
    ;
}

/// Joining a column and a row inside the grid gives a flat index inside the
/// grid, and splitting that index gives the column and the row back.
pub proof fn lemma_coordinates_round_trip(x: int, y: int, width: int, height: int)
    requires
        0 <= x < width,
        0 <= y < height,
    ensures
        0 <= flat_index(x, y, width) < width * height,
        column_of(flat_index(x, y, width), width) == x,
        row_of(flat_index(x, y, width), width) == y,
{
    assert(0 <= y * width + x < width * height) by (nonlinear_arith)
        requires
            0 <= x < width,
            0 <= y < height,
    ;
    assert((y * width + x) % width == x && (y * width + x) / width == y) by (nonlinear_arith)
        requires
            0 <= x < width,
            0 <= y,
    ;
}

/// A grid of `W` columns and `H` rows in which every cell holds one button.
///
/// The shape is part of the type and never changes. The view of a matrix is
/// the sequence of its buttons row by row: the cell in column `x` of row `y`
/// stands at `flat_index(x, y, W)`.
#[derive(Debug)]
pub struct ButtonMatrix<const W: usize, const H: usize> {
    buttons: Vec<Button>,
}

impl<const W: usize, const H: usize> View for ButtonMatrix<W, H> {
    type V = Seq<Button>;

    closed spec fn view(&self) -> Seq<Button> {
        self.buttons@
    }
}

impl<const W: usize, const H: usize> Default for ButtonMatrix<W, H> {
    /// A matrix in which every cell holds the empty button.
    fn default() -> (matrix: Self)
        ensures
            matrix.wf(),
            forall|i: int| 0 <= i < W * H ==> is_blank(#[trigger] matrix@[i]),
    {
        ButtonMatrix::new()
    }
}

impl<const W: usize, const H: usize> ButtonMatrix<W, H> {
    /// A matrix holds exactly one button for each cell of its shape.
    #[verifier::type_invariant]
    pub open spec fn wf(&self) -> bool {
        self@.len() == W * H
    }

    /// A matrix in which every cell holds the empty button.
    pub fn new() -> (matrix: Self)
        ensures
            matrix.wf(),
            forall|i: int|
                0 <= i < W * H ==> is_blank(#[trigger] matrix@[i]),
    {
        let mut buttons: Vec<Button> = Vec::new();
        let mut y: usize = 0;
        while y < H
            invariant
                y <= H,
                buttons@.len() == y * W,
                forall|i: int|
                    0 <= i < buttons@.len() ==> is_blank(#[trigger] buttons@[i]),
            decreases H - y,
        {
            let mut x: usize = 0;
            while x < W
                invariant
                    y < H,
                    x <= W,
                    buttons@.len() == y * W + x,
                    forall|i: int|
                        0 <= i < buttons@.len() ==> is_blank(#[trigger] buttons@[i]),
                decreases W - x,
            {
                buttons.push(Button::default());
                x += 1;
            }
            assert((y + 1) * W == y * W + W) by (nonlinear_arith);
            y += 1;
        }
        ButtonMatrix { buttons }
    }

    /// The button in column `x` of row `y`.
    pub open spec fn button_at(&self, x: int, y: int) -> Button {
        self@[flat_index(x, y, W as int)]
    }

    /// A button that was put into a cell of the grid is the button found
    /// there afterwards, and every other cell holds what it held before:
    /// where `after` is `before` with `button` set in column `x` of row `y`,
    /// as `set_button` leaves it, `get_button` finds `button` there and in
    /// every other cell what it found in `before`.
    pub proof fn lemma_set_button_then_get_button(
        before: Self,
        after: Self,
        x: usize,
        y: usize,
        button: Button,
    )
        requires
            before.wf(),
            x < W,
            y < H,
            after@ == before@.update(flat_index(x as int, y as int, W as int), button),
        ensures
            after.wf(),
            after.button_at(x as int, y as int) == button,
            forall|other_x: int, other_y: int|
                0 <= other_x < W && 0 <= other_y < H && (other_x != x || other_y != y)
                    ==> #[trigger] after.button_at(other_x, other_y) == before.button_at(
                    other_x,
                    other_y,
                ),
    {
        lemma_coordinates_round_trip(x as int, y as int, W as int, H as int);
        assert forall|other_x: int, other_y: int|
            0 <= other_x < W && 0 <= other_y < H && (other_x != x || other_y
                != y) implies #[trigger] after.button_at(other_x, other_y) == before.button_at(
            other_x,
            other_y,
        ) by {
            lemma_coordinates_round_trip(other_x, other_y, W as int, H as int);
        }
    }

    /// Replaces the button at `index`, which lies inside the grid.
    fn put(&mut self, index: usize, button: Button)
        requires
            index < W * H,
        ensures
            final(self)@ == old(self)@.update(index as int, button),
        no_unwind
    {
        proof {
            use_type_invariant(&*self);
        }
        self.buttons[index] = button;
    }

    /// The number of columns.
    pub fn width(&self) -> (width: usize)
        ensures
            width == W,
    {
        W
    }

    /// The number of rows.
    pub fn height(&self) -> (height: usize)
        ensures
            height == H,
    {
        H
    }

    /// The number of cells.
    pub fn size(&self) -> (size: usize)
        ensures
            size == W * H,
            size == self@.len(),
    {
        proof {
            use_type_invariant(self);
        }
        self.buttons.len()
    }

    /// The button with flat index `index`, or `None` where the index lies
    /// outside the grid.
    pub fn get_button_by_index(&self, index: usize) -> (button: Option<&Button>)
        ensures
            self.wf(),
            index < W * H ==> button == Some(&self@[index as int]),
            index >= W * H ==> button is None,
    {
        proof {
            use_type_invariant(self);
        }
        if index < self.buttons.len() {
            Some(&self.buttons[index])
        } else {
            None
        }
    }

    /// The button in column `x` of row `y`, or `None` where the cell lies
    /// outside the grid.
    pub fn get_button(&self, x: usize, y: usize) -> (button: Option<&Button>)
        ensures
            self.wf(),
            x < W && y < H ==> button == Some(&self.button_at(x as int, y as int)),
            x >= W || y >= H ==> button is None,
    {
        proof {
            use_type_invariant(self);
        }
        if x < W && y < H {
            proof {
                lemma_coordinates_round_trip(x as int, y as int, W as int, H as int);
                assert(self.buttons.len() == W * H);
                assert(0 <= y * W) by (nonlinear_arith);
            }
            Some(&self.buttons[y * W + x])
        } else {
            None
        }
    }

    /// Puts `button` into column `x` of row `y`. Outside the grid nothing
    /// changes and an error is returned.
    pub fn set_button(&mut self, x: usize, y: usize, button: Button) -> (result: Result<
        (),
        Error,
    >)
        ensures
            final(self).wf(),
            x < W && y < H ==> result is Ok && final(self)@ == old(self)@.update(
                flat_index(x as int, y as int, W as int),
                button,
            ),
            x >= W || y >= H ==> final(self)@ == old(self)@ && result is Err
                && result->Err_0.is_custom("Button index out of bounds"@),
    {
        proof {
            use_type_invariant(&*self);
        }
        if x < W && y < H {
            proof {
                lemma_coordinates_round_trip(x as int, y as int, W as int, H as int);
                assert(self.buttons.len() == W * H);
                assert(0 <= y * W) by (nonlinear_arith);
            }
            self.put(y * W + x, button);
            Ok(())
        } else {
            Err(Error::Custom(String::from_str("Button index out of bounds")))
        }
    }

    /// Puts `button` into the cell with flat index `index`. Outside the grid
    /// nothing changes and an error is returned.
    pub fn set_button_by_index(&mut self, index: usize, button: Button) -> (result: Result<
        (),
        Error,
    >)
        ensures
            final(self).wf(),
            index < W * H ==> result is Ok && final(self)@ == old(self)@.update(
                index as int,
                button,
            ),
            index >= W * H ==> final(self)@ == old(self)@ && result == Err::<(), Error>(
                Error::ButtonIndexOutOfBounds(index),
            ),
    {
        proof {
            use_type_invariant(&*self);
        }
        if index < self.buttons.len() {
            self.put(index, button);
            Ok(())
        } else {
            Err(Error::ButtonIndexOutOfBounds(index))
        }
    }
}

} // verus!
