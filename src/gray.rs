//! Grayscale rasters as plain values, and the image codec calls that
//! produce and resample them.

use vstd::prelude::*;
use image::ImageError;
use crate::size::ImageSize;

verus! {

#[verifier::external_type_specification]
#[verifier::external_body]
pub struct ExImageError(ImageError);

/// A single-channel raster: one luminance byte per pixel, row-major.
pub struct GrayImage {
    pub width: u32,
    pub height: u32,
    pub pixels: Vec<u8>,
}

impl GrayImage {
    /// The raster holds exactly one byte per pixel.
    pub open spec fn wf(&self) -> bool {
        self.pixels@.len() == self.width as int * self.height as int
    }
}

/// Whether the codec decodes `bytes` into an image.
pub uninterp spec fn decodes(bytes: Seq<u8>) -> bool;

/// The luminance copy of the image that `bytes` decode to: its width, its
/// height and its buffer, one byte per pixel in row-major order, possibly
/// followed by unused bytes.
pub uninterp spec fn decoded_luma(bytes: Seq<u8>) -> (u32, u32, Seq<u8>);

/// The pixels of a `width` by `height` raster resampled by nearest neighbour
/// to `new_width` by `new_height`.
pub uninterp spec fn nearest_resized(
    pixels: Seq<u8>,
    width: u32,
    height: u32,
    new_width: u32,
    new_height: u32,
) -> Seq<u8>;

/// Relies on image::load_from_memory, which guesses the format from the
/// bytes and decodes them or reports why it could not, and on
/// DynamicImage::to_luma8, which copies the decoded image into a luminance
/// buffer holding at least one byte per pixel.
#[verifier::external_body]
pub(crate) fn decode_luma(bytes: &[u8]) -> (r: Result<(u32, u32, Vec<u8>), ImageError>)
    ensures
        r is Ok == decodes(bytes@),
        r matches Ok(t) ==> (t.0, t.1, t.2@) == decoded_luma(bytes@),
        r matches Ok(t) ==> t.2@.len() >= t.0 as int * t.1 as int,
{
    match image::load_from_memory(bytes) {
        Ok(img) => {
            let luma = img.to_luma8();
            Ok((luma.width(), luma.height(), luma.into_raw()))
        },
        Err(e) => Err(e),
    }
}

/// Builds a grayscale raster from a luminance buffer, keeping one byte per
/// pixel and dropping any bytes past the last pixel.
pub fn change_grayscale(width: u32, height: u32, pixels: Vec<u8>) -> (r: GrayImage)
    requires
        pixels@.len() >= width as int * height as int,
    ensures
        r.wf(),
        r.width == width,
        r.height == height,
        r.pixels@ == pixels@.subrange(0, width as int * height as int),
{
    let mut pixels = pixels;
    let n: usize = pixels.len();
    assert((width as usize) as int * (height as usize) as int <= n);
    let len: usize = (width as usize) * (height as usize);
    pixels.truncate(len);
    GrayImage { width, height, pixels }
}

/// Whether resampling a raster `width` pixels wide to `new_width` by
/// `new_height` keeps the codec's working buffers, four values per pixel,
/// within the address space.
pub open spec fn resize_fits(width: u32, new_width: u32, new_height: u32) -> bool {
    4 * (new_width as int * new_height as int) <= usize::MAX as int && 4 * (width as int
        * new_height as int) <= usize::MAX as int
}

/// Relies on image::imageops::resize with FilterType::Nearest: a raster of
/// exactly the requested size, each pixel taken from the nearest source
/// pixel. A raster resampled to its own size is copied unchanged, and one
/// without pixels gives zeros. It panics only when a buffer's length
/// overflows `usize`.
#[verifier::external_body]
fn resize_pixels(img: &GrayImage, new_width: u32, new_height: u32) -> (r: Vec<u8>)
    requires
        img.wf(),
        resize_fits(img.width, new_width, new_height),
    ensures
        r@.len() == new_width as int * new_height as int,
        r@ == nearest_resized(img.pixels@, img.width, img.height, new_width, new_height),
        new_width == img.width && new_height == img.height ==> r@ == img.pixels@,
        img.width == 0 || img.height == 0 ==> forall|i: int| 0 <= i < r@.len() ==> r@[i] == 0,
{
    let src = image::GrayImage::from_raw(img.width, img.height, img.pixels.clone()).unwrap();
    image::imageops::resize(&src, new_width, new_height, image::imageops::FilterType::Nearest)
        .into_raw()
}

/// Resamples a raster to exactly `size` by nearest neighbour, whatever its
/// aspect ratio.
pub fn sized_image(img: &GrayImage, size: ImageSize) -> (r: GrayImage)
    requires
        img.wf(),
        resize_fits(img.width, size.width, size.height),
    ensures
        r.wf(),
        r.width == size.width,
        r.height == size.height,
        r.pixels@ == nearest_resized(img.pixels@, img.width, img.height, size.width, size.height),
{
    let pixels = resize_pixels(img, size.width, size.height);
    GrayImage { width: size.width, height: size.height, pixels }
}

/// Decides `resize_fits` for a resampling of a raster `width` pixels wide.
pub fn check_resize_fits(width: u32, size: ImageSize) -> (r: bool)
    ensures
        r == resize_fits(width, size.width, size.height),
{
    let w = width as u128;
    let nw = size.width as u128;
    let nh = size.height as u128;
    assert(nw * nh <= 0xffff_ffffu128 * 0xffff_ffffu128) by (nonlinear_arith)
        requires
            nw <= 0xffff_ffff,
            nh <= 0xffff_ffff,
    ;
    assert(w * nh <= 0xffff_ffffu128 * 0xffff_ffffu128) by (nonlinear_arith)
        requires
            w <= 0xffff_ffff,
            nh <= 0xffff_ffff,
    ;
    let limit = usize::MAX as u128;
    4 * (nw * nh) <= limit && 4 * (w * nh) <= limit
}

/// Relies on image::error::LimitError::from_kind: the codec's error for an
/// image whose dimensions exceed what can be held.
#[verifier::external_body]
pub(crate) fn dimension_error() -> (r: ImageError) {
    ImageError::Limits(image::error::LimitError::from_kind(
        image::error::LimitErrorKind::DimensionError,
    ))
}

} // verus!
