//! Target raster sizes, derived from a sizing policy, the source image and
//! the terminal's dimensions.

use vstd::prelude::*;

verus! {

/// Columns that the `Fill` policy leaves free at the terminal's right edge.
pub const FILL_MARGIN: u16 = 5;

/// Terminal width assumed when the terminal cannot be queried.
pub const DEFAULT_TERMINAL_WIDTH: u16 = 200;

/// Terminal height assumed when the terminal cannot be queried.
pub const DEFAULT_TERMINAL_HEIGHT: u16 = 60;

/// How the target raster size is chosen.
#[derive(Copy, Clone, PartialEq, Eq, Structural, Debug)]
pub enum ImageRatio {
    /// Keep the source height; take the terminal width less a small margin.
    Fill,
    /// Take the terminal's columns and rows as width and height.
    Fit,
    /// Keep the source image's own width and height.
    Original,
}

/// A target raster size in pixels.
#[derive(Copy, Clone, PartialEq, Eq, Structural, Debug)]
pub struct ImageSize {
    pub width: u32,
    pub height: u32,
}

impl ImageSize {
    pub fn new(width: u32, height: u32) -> (r: Self)
        ensures
            r.width == width,
            r.height == height,
    {
        ImageSize { width, height }
    }
}

/// Width that `Fill` takes for a terminal `terminal_width` columns wide,
/// never below one.
pub open spec fn fill_width(terminal_width: u16) -> u32 {
    if terminal_width > FILL_MARGIN {
        (terminal_width - FILL_MARGIN) as u32
    } else {
        1
    }
}

/// The size that `policy` gives for a source image of `source_width` by
/// `source_height` pixels on a terminal of `terminal` (columns, rows).
pub open spec fn resolved_size(
    policy: ImageRatio,
    source_width: u32,
    source_height: u32,
    terminal: (u16, u16),
) -> ImageSize {
    match policy {
        ImageRatio::Fill => ImageSize { width: fill_width(terminal.0), height: source_height },
        ImageRatio::Fit => ImageSize { width: terminal.0 as u32, height: terminal.1 as u32 },
        ImageRatio::Original => ImageSize { width: source_width, height: source_height },
    }
}

/// Resolves the target size for a source image of the given dimensions.
pub fn resolve_size(
    policy: ImageRatio,
    source_width: u32,
    source_height: u32,
    terminal: (u16, u16),
) -> (r: ImageSize)
    requires
        terminal.0 > 0,
        terminal.1 > 0,
    ensures
        r == resolved_size(policy, source_width, source_height, terminal),
{
    match policy {
        ImageRatio::Fill => {
            let width: u32 = if terminal.0 > FILL_MARGIN {
                (terminal.0 - FILL_MARGIN) as u32
            } else {
                1
            };
            ImageSize::new(width, source_height)
        },
        ImageRatio::Fit => ImageSize::new(terminal.0 as u32, terminal.1 as u32),
        ImageRatio::Original => ImageSize::new(source_width, source_height),
    }
}

/// The terminal dimensions to use: those reported when both are positive,
/// else the default.
pub open spec fn terminal_or_default_spec(reported: Option<(u16, u16)>) -> (u16, u16) {
    match reported {
        Some(dims) => if dims.0 > 0 && dims.1 > 0 {
            dims
        } else {
            (DEFAULT_TERMINAL_WIDTH, DEFAULT_TERMINAL_HEIGHT)
        },
        None => (DEFAULT_TERMINAL_WIDTH, DEFAULT_TERMINAL_HEIGHT),
    }
}

/// Falls back to the default terminal dimensions when none, or an empty
/// window, were reported.
pub fn terminal_or_default(reported: Option<(u16, u16)>) -> (r: (u16, u16))
    ensures
        r == terminal_or_default_spec(reported),
        r.0 > 0 && r.1 > 0,
{
    match reported {
        Some(dims) => if dims.0 > 0 && dims.1 > 0 {
            dims
        } else {
            (DEFAULT_TERMINAL_WIDTH, DEFAULT_TERMINAL_HEIGHT)
        },
        None => (DEFAULT_TERMINAL_WIDTH, DEFAULT_TERMINAL_HEIGHT),
    }
}

/// Relies on terminal_size::terminal_size: the columns and rows of the
/// terminal the process writes to, if any. Nothing is assumed of them.
#[verifier::external_body]
fn query_terminal() -> (r: Option<(u16, u16)>) {
    terminal_size::terminal_size().map(|(w, h)| (w.0, h.0))
}

/// The current terminal's (columns, rows), or the default when the process
/// has no terminal. Both are positive either way.
pub fn get_terminal_dimensions() -> (r: (u16, u16))
    ensures
        r.0 > 0,
        r.1 > 0,
{
    let reported = query_terminal();
    terminal_or_default(reported)
}

} // verus!
