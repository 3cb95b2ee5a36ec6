//! The whole conversion: decode, grayscale, size, resample, render.

use vstd::prelude::*;
use image::ImageError;
use crate::gray::{
    change_grayscale, check_resize_fits, decode_luma, decoded_luma, decodes, dimension_error,
    nearest_resized, resize_fits, sized_image, GrayImage,
};
use crate::render::{ascii_art, map_image, AsciiChars};
use crate::size::{get_terminal_dimensions, resolve_size, resolved_size, ImageRatio, ImageSize};

verus! {

/// Whether a `width` by `height` raster can be resampled to the size that
/// `policy` picks on `terminal`.
pub open spec fn gray_fits(width: u32, height: u32, policy: ImageRatio, terminal: (u16, u16)) -> bool {
    let size = resolved_size(policy, width, height, terminal);
    resize_fits(width, size.width, size.height)
}

/// The art for a `width` by `height` grayscale raster: resampled to the size
/// that `policy` picks on `terminal`, then rendered with `chars`.
pub open spec fn gray_art(
    pixels: Seq<u8>,
    width: u32,
    height: u32,
    chars: AsciiChars,
    policy: ImageRatio,
    terminal: (u16, u16),
) -> Seq<char> {
    let size = resolved_size(policy, width, height, terminal);
    ascii_art(
        nearest_resized(pixels, width, height, size.width, size.height),
        size.width as nat,
        size.height as nat,
        chars,
    )
}

/// The grayscale pixels of the image that `bytes` decode to, one per pixel.
pub open spec fn decoded_pixels(bytes: Seq<u8>) -> Seq<u8> {
    let luma = decoded_luma(bytes);
    luma.2.subrange(0, luma.0 as int * luma.1 as int)
}

/// Whether the image that `bytes` decode to can be resampled for `policy`
/// on `terminal`.
pub open spec fn decoded_fits(bytes: Seq<u8>, policy: ImageRatio, terminal: (u16, u16)) -> bool {
    gray_fits(decoded_luma(bytes).0, decoded_luma(bytes).1, policy, terminal)
}

/// The art for the image that `bytes` decode to.
pub open spec fn decoded_art(
    bytes: Seq<u8>,
    chars: AsciiChars,
    policy: ImageRatio,
    terminal: (u16, u16),
) -> Seq<char> {
    gray_art(
        decoded_pixels(bytes),
        decoded_luma(bytes).0,
        decoded_luma(bytes).1,
        chars,
        policy,
        terminal,
    )
}

/// `r` is what converting `bytes` gives on a terminal of positive
/// dimensions `terminal`: success exactly when they decode to an image that
/// can be resampled, and then its art.
pub open spec fn result_on_terminal(
    r: Result<String, ImageError>,
    bytes: Seq<u8>,
    chars: AsciiChars,
    policy: ImageRatio,
    terminal: (u16, u16),
) -> bool {
    &&& terminal.0 > 0 && terminal.1 > 0
    &&& (r is Ok <==> decodes(bytes) && decoded_fits(bytes, policy, terminal))
    &&& (r matches Ok(s) ==> s@ == decoded_art(bytes, chars, policy, terminal))
}

/// The target size for `img` under `options` on a terminal of `terminal`
/// (columns, rows).
pub fn get_image_size(options: ImageRatio, img: &GrayImage, terminal: (u16, u16)) -> (r: ImageSize)
    requires
        terminal.0 > 0,
        terminal.1 > 0,
    ensures
        r == resolved_size(options, img.width, img.height, terminal),
{
    resolve_size(options, img.width, img.height, terminal)
}

/// Renders a grayscale raster at the size that `size` picks on `terminal`;
/// `None` when the resampling buffers would not fit in the address space.
pub fn ascii_from_gray(
    img: &GrayImage,
    char_map: &AsciiChars,
    size: ImageRatio,
    terminal: (u16, u16),
) -> (r: Option<String>)
    requires
        img.wf(),
        terminal.0 > 0,
        terminal.1 > 0,
    ensures
        r is Some == gray_fits(img.width, img.height, size, terminal),
        r matches Some(s) ==> s@ == gray_art(
            img.pixels@,
            img.width,
            img.height,
            *char_map,
            size,
            terminal,
        ),
{
    let image_size = get_image_size(size, img, terminal);
    if !check_resize_fits(img.width, image_size) {
        return None;
    }
    let sized = sized_image(img, image_size);
    Some(map_image(&sized, char_map))
}

/// Converts encoded image bytes to ASCII art for a terminal of `terminal`
/// (columns, rows). Fails with the codec's error when the bytes do not
/// decode, and with a dimension error when the image is too large to
/// resample.
pub fn create_ascii_for_terminal(
    bytes: &[u8],
    char_map: AsciiChars,
    size: ImageRatio,
    terminal: (u16, u16),
) -> (r: Result<String, ImageError>)
    requires
        terminal.0 > 0,
        terminal.1 > 0,
    ensures
        r is Ok <==> decodes(bytes@) && decoded_fits(bytes@, size, terminal),
        r matches Ok(s) ==> s@ == decoded_art(bytes@, char_map, size, terminal),
{
    let (width, height, pixels) = match decode_luma(bytes) {
        Ok(parts) => parts,
        Err(e) => return Err(e),
    };
    let grey_img = change_grayscale(width, height, pixels);
    match ascii_from_gray(&grey_img, &char_map, size, terminal) {
        Some(s) => Ok(s),
        None => Err(dimension_error()),
    }
}

/// Converts encoded image bytes to ASCII art sized for the current terminal,
/// or for the default dimensions when there is none. Whatever the terminal
/// reports, the result is that of `create_ascii_for_terminal` on some
/// positive terminal dimensions.
pub fn create_ascii(bytes: &[u8], char_map: AsciiChars, size: ImageRatio) -> (r: Result<
    String,
    ImageError,
>)
    ensures
        exists|t: (u16, u16)| #[trigger] result_on_terminal(r, bytes@, char_map, size, t),
{
    let terminal = get_terminal_dimensions();
    let r = create_ascii_for_terminal(bytes, char_map, size, terminal);
    assert(result_on_terminal(r, bytes@, char_map, size, terminal));
    r
}

} // verus!
