//! What is handed to the rasterizer: descriptions of single button images.

mod render;
mod types;

pub use self::render::{spec_text_origin, text_origin};
pub use self::types::Button;
