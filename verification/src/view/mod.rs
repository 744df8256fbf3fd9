//! The view system: display records and the grid that holds them.

pub mod customizable;

mod button;
mod manager;
mod matrix;

pub use self::button::{is_blank, Button, ButtonState};
pub use self::manager::{
    describe, paint_plan, pressed_at, spec_describe, DeviceCommand, DisplayManager,
    NAVIGATION_CHANNEL_CAPACITY,
};
pub use self::matrix::{
    column_of, flat_index, lemma_coordinates_round_trip, lemma_index_in_grid,
    lemma_index_round_trip, row_of, ButtonMatrix,
};

use vstd::prelude::*;

verus! {

/// The state that a view keeps for itself.
pub trait ViewState: Sized + Send + Sync + 'static {
    /// A fresh state.
    fn new() -> Self;
}

} // verus!
