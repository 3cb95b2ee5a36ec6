use ascii_lib::gray::{change_grayscale, check_resize_fits, sized_image};
use ascii_lib::pipeline::{ascii_from_gray, get_image_size};
use ascii_lib::render::{get_char, map_image};
use ascii_lib::size::{get_terminal_dimensions, resolve_size, terminal_or_default};
use ascii_lib::{create_ascii, create_ascii_for_terminal, AsciiChars, GrayImage, ImageRatio, ImageSize};

fn chars() -> AsciiChars {
    AsciiChars::new(' ', '.', '*', '#')
}

fn gray(width: u32, height: u32, pixels: Vec<u8>) -> GrayImage {
    GrayImage { width, height, pixels }
}

fn png_bytes(width: u32, height: u32, pixels: Vec<u8>) -> Vec<u8> {
    let buf = image::GrayImage::from_raw(width, height, pixels).unwrap();
    let mut out = std::io::Cursor::new(Vec::new());
    image::DynamicImage::ImageLuma8(buf)
        .write_to(&mut out, image::ImageFormat::Png)
        .unwrap();
    out.into_inner()
}

#[test]
fn band_boundaries() {
    let c = chars();
    assert_eq!(get_char(0, &c), ' ');
    assert_eq!(get_char(100, &c), ' ');
    assert_eq!(get_char(101, &c), '.');
    assert_eq!(get_char(150, &c), '.');
    assert_eq!(get_char(151, &c), '*');
    assert_eq!(get_char(200, &c), '*');
    assert_eq!(get_char(201, &c), '#');
    assert_eq!(get_char(255, &c), '#');
}

#[test]
fn ascii_chars_new_keeps_order() {
    let c = AsciiChars::new('a', 'b', 'c', 'd');
    assert_eq!((c.light, c.medium, c.dark, c.extra_dark), ('a', 'b', 'c', 'd'));
}

#[test]
fn image_size_new_keeps_fields() {
    let s = ImageSize::new(7, 9);
    assert_eq!((s.width, s.height), (7, 9));
}

#[test]
fn original_keeps_source_size_on_any_terminal() {
    for t in [(80u16, 24u16), (200, 60), (1, 1), (u16::MAX, u16::MAX)] {
        assert_eq!(resolve_size(ImageRatio::Original, 37, 12, t), ImageSize::new(37, 12));
    }
}

#[test]
fn fill_on_terminal_100_wide() {
    assert_eq!(resolve_size(ImageRatio::Fill, 640, 480, (100, 30)), ImageSize::new(95, 480));
    assert_eq!(resolve_size(ImageRatio::Fill, 3, 7, (100, 1)), ImageSize::new(95, 7));
}

#[test]
fn fill_on_narrow_terminal_clamps_to_one() {
    assert_eq!(resolve_size(ImageRatio::Fill, 10, 4, (3, 10)), ImageSize::new(1, 4));
    assert_eq!(resolve_size(ImageRatio::Fill, 10, 4, (5, 10)), ImageSize::new(1, 4));
    assert_eq!(resolve_size(ImageRatio::Fill, 10, 4, (6, 10)), ImageSize::new(1, 4));
    assert_eq!(resolve_size(ImageRatio::Fill, 10, 4, (7, 10)), ImageSize::new(2, 4));
}

#[test]
fn fit_on_terminal_120_by_40() {
    for (w, h) in [(1u32, 1u32), (640, 480), (5000, 3)] {
        assert_eq!(resolve_size(ImageRatio::Fit, w, h, (120, 40)), ImageSize::new(120, 40));
    }
}

#[test]
fn image_size_of_gray_raster() {
    let img = gray(4, 2, vec![0; 8]);
    assert_eq!(get_image_size(ImageRatio::Original, &img, (80, 24)), ImageSize::new(4, 2));
    assert_eq!(get_image_size(ImageRatio::Fill, &img, (80, 24)), ImageSize::new(75, 2));
    assert_eq!(get_image_size(ImageRatio::Fit, &img, (80, 24)), ImageSize::new(80, 24));
}

#[test]
fn terminal_fallback() {
    assert_eq!(terminal_or_default(None), (200, 60));
    assert_eq!(terminal_or_default(Some((80, 24))), (80, 24));
    assert_eq!(terminal_or_default(Some((0, 24))), (200, 60));
    assert_eq!(terminal_or_default(Some((80, 0))), (200, 60));
}

#[test]
fn terminal_dimensions_are_positive() {
    let (w, h) = get_terminal_dimensions();
    assert!(w > 0 && h > 0);
}

#[test]
fn map_image_rows_and_bands() {
    let img = gray(3, 2, vec![0, 120, 180, 255, 100, 101]);
    assert_eq!(map_image(&img, &chars()), " .*\n# .");
}

#[test]
fn map_image_line_breaks_per_row() {
    let img = gray(4, 3, vec![255; 12]);
    let art = map_image(&img, &chars());
    assert!(!art.is_empty());
    assert_eq!(art.matches('\n').count(), 2);
    assert_eq!(art, "####\n####\n####");
}

#[test]
fn map_image_single_column() {
    let img = gray(1, 3, vec![0, 255, 0]);
    assert_eq!(map_image(&img, &chars()), " \n#\n ");
}

#[test]
fn map_image_empty_raster() {
    assert_eq!(map_image(&gray(0, 5, vec![]), &chars()), "");
    assert_eq!(map_image(&gray(5, 0, vec![]), &chars()), "");
}

#[test]
fn change_grayscale_keeps_pixels() {
    let g = change_grayscale(2, 2, vec![0, 50, 150, 250]);
    assert_eq!((g.width, g.height), (2, 2));
    assert_eq!(g.pixels, vec![0, 50, 150, 250]);
}

#[test]
fn change_grayscale_drops_trailing_bytes() {
    let g = change_grayscale(2, 1, vec![7, 8, 9, 10]);
    assert_eq!((g.width, g.height), (2, 1));
    assert_eq!(g.pixels, vec![7, 8]);
}

#[test]
fn pipeline_grayscales_rgb_png() {
    let buf = image::RgbImage::from_raw(2, 1, vec![255, 255, 255, 0, 0, 0]).unwrap();
    let mut out = std::io::Cursor::new(Vec::new());
    image::DynamicImage::ImageRgb8(buf)
        .write_to(&mut out, image::ImageFormat::Png)
        .unwrap();
    let art = create_ascii_for_terminal(&out.into_inner(), chars(), ImageRatio::Original, (80, 24));
    assert_eq!(art.unwrap(), "# ");
}

#[test]
fn sized_image_changes_dimensions() {
    let img = gray(2, 2, vec![200; 4]);
    let r = sized_image(&img, ImageSize::new(3, 5));
    assert_eq!((r.width, r.height), (3, 5));
    assert_eq!(r.pixels, vec![200; 15]);
}

#[test]
fn sized_image_downsamples() {
    let img = gray(4, 4, vec![10; 16]);
    let r = sized_image(&img, ImageSize::new(2, 1));
    assert_eq!((r.width, r.height), (2, 1));
    assert_eq!(r.pixels, vec![10, 10]);
}

#[test]
fn resize_fits_bounds() {
    assert!(check_resize_fits(10, ImageSize::new(10, 10)));
    assert!(!check_resize_fits(u32::MAX, ImageSize::new(u32::MAX, u32::MAX)));
}

#[test]
fn ascii_from_gray_fit() {
    let img = gray(2, 2, vec![0; 4]);
    let art = ascii_from_gray(&img, &chars(), ImageRatio::Fit, (4, 3));
    assert_eq!(art, Some("    \n    \n    ".to_string()));
}

#[test]
fn ascii_from_gray_fill_keeps_height() {
    let img = gray(6, 2, vec![255; 12]);
    let art = ascii_from_gray(&img, &chars(), ImageRatio::Fill, (8, 24));
    assert_eq!(art, Some("###\n###".to_string()));
}

#[test]
fn pipeline_original_on_png() {
    let bytes = png_bytes(3, 2, vec![0, 120, 180, 255, 100, 101]);
    let art = create_ascii_for_terminal(&bytes, chars(), ImageRatio::Original, (80, 24));
    assert_eq!(art.unwrap(), " .*\n# .");
}

#[test]
fn pipeline_line_breaks_match_rows() {
    let bytes = png_bytes(5, 4, (0..20).map(|i| (i * 12) as u8).collect());
    let art = create_ascii_for_terminal(&bytes, chars(), ImageRatio::Original, (80, 24)).unwrap();
    assert!(!art.is_empty());
    assert_eq!(art.matches('\n').count(), 3);
    assert!(!art.ends_with('\n'));
}

#[test]
fn pipeline_fill_shape_on_png() {
    let bytes = png_bytes(6, 3, vec![90; 18]);
    let art = create_ascii_for_terminal(&bytes, chars(), ImageRatio::Fill, (9, 40)).unwrap();
    assert_eq!(art, "    \n    \n    ");
    let narrow = create_ascii_for_terminal(&bytes, chars(), ImageRatio::Fill, (2, 40)).unwrap();
    assert_eq!(narrow, " \n \n ");
}

#[test]
fn pipeline_fit_on_png() {
    let bytes = png_bytes(2, 2, vec![160; 4]);
    let art = create_ascii_for_terminal(&bytes, chars(), ImageRatio::Fit, (3, 2)).unwrap();
    assert_eq!(art, "***\n***");
}

#[test]
fn pipeline_is_repeatable() {
    let bytes = png_bytes(5, 4, (0..20).map(|i| (i * 12) as u8).collect());
    for policy in [ImageRatio::Fill, ImageRatio::Fit, ImageRatio::Original] {
        let a = create_ascii_for_terminal(&bytes, chars(), policy, (30, 10)).unwrap();
        let b = create_ascii_for_terminal(&bytes, chars(), policy, (30, 10)).unwrap();
        assert_eq!(a, b);
    }
}

#[test]
fn pipeline_rejects_undecodable_bytes() {
    assert!(create_ascii_for_terminal(&[], chars(), ImageRatio::Fill, (80, 24)).is_err());
    let garbage = b"not an image at all".to_vec();
    assert!(create_ascii_for_terminal(&garbage, chars(), ImageRatio::Original, (80, 24)).is_err());
    assert!(create_ascii(&garbage, chars(), ImageRatio::Fit).is_err());
}

#[test]
fn pipeline_rejects_truncated_png() {
    let bytes = png_bytes(3, 3, vec![9; 9]);
    assert!(create_ascii_for_terminal(&bytes[..bytes.len() / 2], chars(), ImageRatio::Original, (80, 24)).is_err());
}

#[test]
fn create_ascii_original_ignores_terminal() {
    let bytes = png_bytes(2, 2, vec![0, 255, 255, 0]);
    assert_eq!(create_ascii(&bytes, chars(), ImageRatio::Original).unwrap(), " #\n# ");
}
