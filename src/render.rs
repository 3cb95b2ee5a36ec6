//! Mapping luminance to characters, and a grayscale raster to ASCII art.

use vstd::prelude::*;
use crate::gray::GrayImage;

verus! {

/// Highest intensity drawn with the light character.
pub const LIGHT_MAX: u8 = 100;

/// Highest intensity drawn with the medium character.
pub const MEDIUM_MAX: u8 = 150;

/// Highest intensity drawn with the dark character; brighter pixels are
/// drawn with the extra-dark character.
pub const DARK_MAX: u8 = 200;

/// The four characters of the brightness bands, in ascending intensity.
#[derive(Copy, Clone, PartialEq, Eq, Structural, Debug)]
pub struct AsciiChars {
    pub light: char,
    pub medium: char,
    pub dark: char,
    pub extra_dark: char,
}

impl AsciiChars {
    pub fn new(light: char, medium: char, dark: char, extra_dark: char) -> (r: Self)
        ensures
            r.light == light,
            r.medium == medium,
            r.dark == dark,
            r.extra_dark == extra_dark,
    {
        AsciiChars { light, medium, dark, extra_dark }
    }

    /// None of the four characters is a line break.
    pub open spec fn no_line_break(self) -> bool {
        self.light != '\n' && self.medium != '\n' && self.dark != '\n' && self.extra_dark != '\n'
    }
}

/// The character of the band that `intensity` falls in: 0..=100 light,
/// 101..=150 medium, 151..=200 dark, 201..=255 extra dark.
pub open spec fn band_char(intensity: u8, chars: AsciiChars) -> char {
    if intensity <= LIGHT_MAX {
        chars.light
    } else if intensity <= MEDIUM_MAX {
        chars.medium
    } else if intensity <= DARK_MAX {
        chars.dark
    } else {
        chars.extra_dark
    }
}

/// Picks the character for one pixel's intensity.
pub fn get_char(intensity: u8, chars: &AsciiChars) -> (r: char)
    ensures
        r == band_char(intensity, *chars),
{
    if intensity <= LIGHT_MAX {
        chars.light
    } else if intensity <= MEDIUM_MAX {
        chars.medium
    } else if intensity <= DARK_MAX {
        chars.dark
    } else {
        chars.extra_dark
    }
}

/// The characters of row `y` of a row-major raster `width` pixels wide.
pub open spec fn row_art(pixels: Seq<u8>, width: nat, chars: AsciiChars, y: nat) -> Seq<char> {
    Seq::new(width, |x: int| band_char(pixels[y * width + x], chars))
}

/// The first `rows` rows of a raster `width` pixels wide, joined by line
/// breaks.
pub open spec fn art_rows(pixels: Seq<u8>, width: nat, chars: AsciiChars, rows: nat) -> Seq<char>
    decreases rows,
{
    if rows == 0 {
        Seq::empty()
    } else if rows == 1 {
        row_art(pixels, width, chars, 0)
    } else {
        art_rows(pixels, width, chars, (rows - 1) as nat).push('\n') + row_art(
            pixels,
            width,
            chars,
            (rows - 1) as nat,
        )
    }
}

/// The art for a row-major raster of `width` by `height` pixels: its rows of
/// band characters joined by line breaks, with no break at the end. A raster
/// without pixels gives no text.
pub open spec fn ascii_art(pixels: Seq<u8>, width: nat, height: nat, chars: AsciiChars) -> Seq<
    char,
> {
    if width == 0 {
        Seq::empty()
    } else {
        art_rows(pixels, width, chars, height)
    }
}

/// Relies on `FromIterator<&char> for String`: the string holds the chars in
/// order.
#[verifier::external_body]
fn string_of_chars(chars: &Vec<char>) -> (r: String)
    ensures
        r@ == chars@,
{
    chars.iter().collect()
}

/// Renders a grayscale raster as ASCII art: rows separated by line breaks,
/// no line break at the end.
pub fn map_image(img: &GrayImage, chars: &AsciiChars) -> (r: String)
    requires
        img.wf(),
    ensures
        r@ == ascii_art(img.pixels@, img.width as nat, img.height as nat, *chars),
{
    let mut art: Vec<char> = Vec::new();
    let width = img.width;
    let height = img.height;
    if width == 0 {
        return string_of_chars(&art);
    }
    let n: usize = img.pixels.len();
    let ghost pix = img.pixels@;
    let ghost w = width as nat;
    let mut y: u32 = 0;
    while y < height
        invariant
            img.wf(),
            pix == img.pixels@,
            w == width as nat,
            width > 0,
            width == img.width,
            height == img.height,
            n == pix.len(),
            y <= height,
            art@ == art_rows(pix, w, *chars, y as nat),
        decreases height - y,
    {
        assert((y as int + 1) * width as int <= width as int * height as int) by (nonlinear_arith)
            requires
                y < height,
        ;
        assert((y as int + 1) * width as int == y as int * width as int + width as int)
            by (nonlinear_arith);
        let ghost base = if y > 0 {
            art@.push('\n')
        } else {
            art@
        };
        if y > 0 {
            art.push('\n');
        }
        let row_start: usize = (y as usize) * (width as usize);
        let mut x: u32 = 0;
        assert(art@ =~= base + Seq::new(0, |i: int| band_char(pix[y as int * w + i], *chars)));
        while x < width
            invariant
                img.wf(),
                pix == img.pixels@,
                w == width as nat,
                x <= width,
                n == pix.len(),
                row_start as int == y as int * width as int,
                row_start as int + width as int <= pix.len(),
                art@ == base + Seq::new(
                    x as nat,
                    |i: int| band_char(pix[y as int * w + i], *chars),
                ),
            decreases width - x,
        {
            let c = get_char(img.pixels[row_start + x as usize], chars);
            art.push(c);
            assert(Seq::new(
                (x + 1) as nat,
                |i: int| band_char(pix[y as int * w + i], *chars),
            ) =~= Seq::new(x as nat, |i: int| band_char(pix[y as int * w + i], *chars)).push(c));
            x = x + 1;
        }
        assert(Seq::new(x as nat, |i: int| band_char(pix[y as int * w + i], *chars)) =~= row_art(
            pix,
            w,
            *chars,
            y as nat,
        ));
        assert(art@ =~= art_rows(pix, w, *chars, (y + 1) as nat));
        y = y + 1;
    }
    string_of_chars(&art)
}

/// How many times `c` occurs in `s`.
pub open spec fn count_char(s: Seq<char>, c: char) -> nat
    decreases s.len(),
{
    if s.len() == 0 {
        0
    } else {
        count_char(s.drop_last(), c) + if s.last() == c {
            1nat
        } else {
            0nat
        }
    }
}

proof fn lemma_count_concat(a: Seq<char>, b: Seq<char>, c: char)
    ensures
        count_char(a + b, c) == count_char(a, c) + count_char(b, c),
    decreases b.len(),
{
    if b.len() == 0 {
        assert(a + b =~= a);
    } else {
        assert((a + b).drop_last() =~= a + b.drop_last());
        lemma_count_concat(a, b.drop_last(), c);
    }
}

proof fn lemma_row_has_no_break(pixels: Seq<u8>, width: nat, chars: AsciiChars, y: nat, n: nat)
    requires
        chars.no_line_break(),
        n <= width,
    ensures
        count_char(row_art(pixels, width, chars, y).subrange(0, n as int), '\n') == 0,
    decreases n,
{
    let row = row_art(pixels, width, chars, y);
    if n > 0 {
        assert(row.subrange(0, n as int).drop_last() =~= row.subrange(0, n - 1));
        lemma_row_has_no_break(pixels, width, chars, y, (n - 1) as nat);
    }
}

proof fn lemma_rows_breaks(pixels: Seq<u8>, width: nat, chars: AsciiChars, rows: nat)
    requires
        chars.no_line_break(),
        rows > 0,
    ensures
        count_char(art_rows(pixels, width, chars, rows), '\n') == rows - 1,
        art_rows(pixels, width, chars, rows).len() >= width,
    decreases rows,
{
    let last = row_art(pixels, width, chars, (rows - 1) as nat);
    lemma_row_has_no_break(pixels, width, chars, (rows - 1) as nat, width);
    assert(last.subrange(0, width as int) =~= last);
    if rows > 1 {
        let before = art_rows(pixels, width, chars, (rows - 1) as nat);
        lemma_rows_breaks(pixels, width, chars, (rows - 1) as nat);
        assert(before.push('\n').drop_last() =~= before);
        lemma_count_concat(before.push('\n'), last, '\n');
    }
}

/// A raster of `height` rows, each `width` pixels wide, renders as a
/// non-empty text with exactly `height - 1` line breaks, provided that no
/// band character is itself a line break.
pub proof fn lemma_art_line_breaks(pixels: Seq<u8>, width: nat, height: nat, chars: AsciiChars)
    requires
        width > 0,
        height > 0,
        chars.no_line_break(),
    ensures
        ascii_art(pixels, width, height, chars).len() > 0,
        count_char(ascii_art(pixels, width, height, chars), '\n') == height - 1,
{
    lemma_rows_breaks(pixels, width, chars, height);
}

} // verus!
