//! A verified core for button-grid controller applications.
//!
//! The crate holds the grid data model, the widget state machines, the click
//! routing of a view, the paint plan of the display manager and the decisions
//! of the event loop. Every function is synchronous and free of I/O: whatever
//! talks to a device, a channel or a rasterizer hands its results in as plain
//! values and carries the returned plans out.

pub mod button;
pub mod error;
pub mod navigation;
pub mod plugins;
pub mod run;
pub mod theme;
pub mod view;

pub use navigation::NavigationEntry;
pub use run::{run, run_with_external_triggers, ExternalTrigger};
pub use theme::{Color, Theme};
pub use view::{Button, ButtonState, DisplayManager};
