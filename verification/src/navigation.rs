//! Screen identifiers.

use vstd::prelude::*;

verus! {

/// A screen identifier of an application.
///
/// An entry names one screen. It has a default, the screen that is shown
/// first; it can be copied freely; and two entries can be compared, which is
/// how the engine tells whether a request names the screen that is already
/// shown. An entry is never changed in place: to move to another screen is to
/// take another entry.
pub trait NavigationEntry: Default + Clone + PartialEq {

}

/// For values that stand for a screen.
pub trait IntoNavigationEntry<N: NavigationEntry> {
    /// The entry of the screen that this value stands for.
    fn into_navigation_entry(self) -> N;
}

} // verus!
