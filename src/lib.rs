//! Renders raster images as ASCII art sized for a terminal.

pub mod gray;
pub mod pipeline;
pub mod render;
pub mod size;

pub use gray::GrayImage;
pub use pipeline::{create_ascii, create_ascii_for_terminal};
pub use render::AsciiChars;
pub use size::{ImageRatio, ImageSize};
