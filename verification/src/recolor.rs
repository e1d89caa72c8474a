//! Recolouring of the doll sprite: colours from hex, the textured palettes,
//! and the per-pixel rule that turns the sprite's outline and body into the
//! doll's colours.

use vstd::prelude::*;
use vstd::utf8::{encode_utf8, is_char_boundary};

verus! {

/// An RGBA colour.
#[derive(Debug, Clone, Copy, PartialEq, Eq, Structural)]
pub struct Rgba {
    pub r: u8,
    pub g: u8,
    pub b: u8,
    pub a: u8,
}

/// Value of an ASCII hexadecimal digit byte.
pub open spec fn hex_digit_value(b: u8) -> Option<u8> {
    if 0x30 <= b <= 0x39 {
        Some((b - 0x30) as u8)
    } else if 0x41 <= b <= 0x46 {
        Some((b - 0x41 + 10) as u8)
    } else if 0x61 <= b <= 0x66 {
        Some((b - 0x61 + 10) as u8)
    } else {
        None
    }
}

/// What `u8::from_str_radix(_, 16)` makes of two bytes: an optional `+`
/// followed by one digit, or two digits.
pub open spec fn hex_pair_value(b0: u8, b1: u8) -> Option<u8> {
    if b0 == 0x2b {
        hex_digit_value(b1)
    } else {
        match (hex_digit_value(b0), hex_digit_value(b1)) {
            (Some(h), Some(l)) => Some((h * 16 + l) as u8),
            _ => None,
        }
    }
}

/// The bytes of a colour text without one leading `#`.
pub open spec fn hex_body(bytes: Seq<u8>) -> Seq<u8> {
    if bytes.len() > 0 && bytes[0] == 0x23 {
        bytes.drop_first()
    } else {
        bytes
    }
}

/// A text whose colour part is six bytes splits into three pairs on character
/// boundaries (splitting inside a character would panic).
pub open spec fn hex_slices_on_boundaries(hex: Seq<char>) -> bool {
    let body = hex_body(encode_utf8(hex));
    body.len() == 6 ==> is_char_boundary(body, 2) && is_char_boundary(body, 4)
}

/// The colour a `#rrggbb` (or `rrggbb`) text denotes, fully opaque; the error
/// says why there is none.
pub open spec fn parse_hex_color_spec(hex: Seq<char>) -> Result<Rgba, Seq<char>> {
    let body = hex_body(encode_utf8(hex));
    if body.len() != 6 {
        Err("Hex color must be 6 characters"@)
    } else {
        match (
            hex_pair_value(body[0], body[1]),
            hex_pair_value(body[2], body[3]),
            hex_pair_value(body[4], body[5]),
        ) {
            (Some(r), Some(g), Some(b)) => Ok(Rgba { r, g, b, a: 255 }),
            _ => Err("invalid digit found in string"@),
        }
    }
}

fn hex_digit(b: u8) -> (res: Option<u8>)
    ensures
        res == hex_digit_value(b),
{
    if 0x30 <= b && b <= 0x39 {
        Some(b - 0x30)
    } else if 0x41 <= b && b <= 0x46 {
        Some(b - 0x41 + 10)
    } else if 0x61 <= b && b <= 0x66 {
        Some(b - 0x61 + 10)
    } else {
        None
    }
}

fn hex_pair(b0: u8, b1: u8) -> (res: Option<u8>)
    ensures
        res == hex_pair_value(b0, b1),
{
    if b0 == 0x2b {
        return hex_digit(b1);
    }
    match (hex_digit(b0), hex_digit(b1)) {
        (Some(h), Some(l)) => Some(h * 16 + l),
        _ => None,
    }
}

/// Reads a `#rrggbb` colour.
pub fn parse_hex_color(hex: &str) -> (res: Result<Rgba, String>)
    requires
        hex_slices_on_boundaries(hex@),
    ensures
        match res {
            Ok(c) => parse_hex_color_spec(hex@) == Ok::<Rgba, Seq<char>>(c),
            Err(m) => parse_hex_color_spec(hex@) == Err::<Rgba, Seq<char>>(m@),
        },
{
    let bytes = hex.as_bytes();
    let start: usize = if bytes.len() > 0 && bytes[0] == 0x23 {
        1
    } else {
        0
    };
    let ghost body = hex_body(encode_utf8(hex@));
    proof {
        assert(body =~= bytes@.subrange(start as int, bytes@.len() as int));
    }
    if bytes.len() - start != 6 {
        return Err(String::from_str("Hex color must be 6 characters"));
    }
    let r = hex_pair(bytes[start], bytes[start + 1]);
    let g = hex_pair(bytes[start + 2], bytes[start + 3]);
    let b = hex_pair(bytes[start + 4], bytes[start + 5]);
    match (r, g, b) {
        (Some(r), Some(g), Some(b)) => Ok(Rgba { r, g, b, a: 255 }),
        _ => Err(String::from_str("invalid digit found in string")),
    }
}

/// A channel moved by `offset`, clamped to 0..=255.
pub open spec fn shade_channel(c: u8, offset: int) -> u8 {
    let v = c + offset;
    if v < 0 {
        0
    } else if v > 255 {
        255
    } else {
        v as u8
    }
}

/// A colour with `offset` added to each of its colour channels (clamped),
/// alpha kept.
pub open spec fn shade(base: Rgba, offset: int) -> Rgba {
    Rgba {
        r: shade_channel(base.r, offset),
        g: shade_channel(base.g, offset),
        b: shade_channel(base.b, offset),
        a: base.a,
    }
}

/// The step between shades of a palette of `count` colours.
pub open spec fn palette_step(count: nat) -> int {
    50int / (if count >= 2 {
        count - 1
    } else {
        1
    }) as int
}

/// `count` shades of `base`, from 25 darker upwards in even steps.
pub open spec fn palette_spec(base: Rgba, count: nat) -> Seq<Rgba> {
    Seq::new(count, |i: int| shade(base, -25 + i * palette_step(count)))
}

fn shade_channel_exec(c: u8, offset: i32) -> (res: u8)
    requires
        -25 <= offset <= 25,
    ensures
        res == shade_channel(c, offset as int),
{
    let v: i32 = c as i32 + offset;
    if v < 0 {
        0
    } else if v > 255 {
        255
    } else {
        v as u8
    }
}

proof fn lemma_step_bound(count: nat, i: nat)
    requires
        0 <= i < count,
    ensures
        0 <= i * palette_step(count) <= 50,
{
    let d: int = if count >= 2 {
        count - 1
    } else {
        1
    };
    let s = 50int / d;
    assert(0 <= s);
    assert(i <= d);
    assert(i * s <= d * s) by (nonlinear_arith)
        requires
            i <= d,
            0 <= s,
    ;
    assert(d * s <= 50) by (nonlinear_arith)
        requires
            d >= 1,
            s == 50int / d,
    ;
    assert(0 <= i * s) by (nonlinear_arith)
        requires
            0 <= s,
            0 <= i,
    ;
}

/// `count` shades of `base` (a texture palette).
pub fn generate_color_palette(base_color: Rgba, count: usize) -> (res: Vec<Rgba>)
    requires
        count > 0,
    ensures
        res@ == palette_spec(base_color, count as nat),
{
    let mut palette: Vec<Rgba> = Vec::new();
    let divisor: usize = if count >= 2 {
        count - 1
    } else {
        1
    };
    let step: usize = 50 / divisor;
    let mut i: usize = 0;
    while i < count
        invariant
            i <= count,
            step == palette_step(count as nat),
            palette@ =~= palette_spec(base_color, count as nat).subrange(0, i as int),
        decreases count - i,
    {
        proof {
            lemma_step_bound(count as nat, i as nat);
        }
        let product: usize = i * step;
        let offset: i32 = product as i32 - 25;
        let shaded = Rgba {
            r: shade_channel_exec(base_color.r, offset),
            g: shade_channel_exec(base_color.g, offset),
            b: shade_channel_exec(base_color.b, offset),
            a: base_color.a,
        };
        palette.push(shaded);
        i = i + 1;
    }
    palette
}

/// The palette position picked for pixel (x, y): a fixed hash of the position.
pub open spec fn palette_index(x: u32, y: u32, len: nat) -> int {
    (vstd::wrapping::u32_specs::wrapping_add(
        vstd::wrapping::u32_specs::wrapping_mul(x, 374761393),
        vstd::wrapping::u32_specs::wrapping_mul(y, 668265263),
    ) as int) % (len as int)
}

/// Picks a palette colour for pixel (x, y), the same one every time.
pub fn pick_color_from_palette(palette: &Vec<Rgba>, x: u32, y: u32) -> (res: Rgba)
    requires
        palette@.len() > 0,
    ensures
        res == palette@[palette_index(x, y, palette@.len())],
{
    let hash = x.wrapping_mul(374761393).wrapping_add(y.wrapping_mul(668265263));
    let index = (hash as usize) % palette.len();
    palette[index]
}

/// Perceived brightness of a colour, as the sprite recolouring computes it.
pub open spec fn brightness(r: u8, g: u8, b: u8) -> int {
    ((r + g + b) * 85) / 256
}

/// The target colour for pixel (x, y): picked from the palette with the
/// texture on, the palette's first colour without.
pub open spec fn chosen_color(palette: Seq<Rgba>, x: u32, y: u32, apply_texture: bool) -> Rgba {
    if apply_texture {
        palette[palette_index(x, y, palette.len())]
    } else {
        palette[0]
    }
}

/// A gray channel blended towards the target by `blend` 256ths.
pub open spec fn blend_channel(c: u8, target: u8, blend: int) -> u8 {
    ((c * (256 - blend) + target * blend) / 256) as u8
}

/// The recolouring rule for one pixel: transparent pixels stay; dark pixels
/// (the outline) take the outline colour; light pixels (the body) take the body
/// colour; gray pixels are blended towards the body colour by their brightness.
pub open spec fn recolor_pixel_spec(
    p: Rgba,
    x: u32,
    y: u32,
    white_palette: Seq<Rgba>,
    black_palette: Seq<Rgba>,
    apply_texture: bool,
) -> Rgba {
    if p.a == 0 {
        p
    } else {
        let br = brightness(p.r, p.g, p.b);
        if br < 64 {
            chosen_color(black_palette, x, y, apply_texture)
        } else if br > 200 {
            chosen_color(white_palette, x, y, apply_texture)
        } else {
            let c = chosen_color(white_palette, x, y, apply_texture);
            let blend = (br - 64) * 256 / 136;
            Rgba {
                r: blend_channel(p.r, c.r, blend),
                g: blend_channel(p.g, c.g, blend),
                b: blend_channel(p.b, c.b, blend),
                a: p.a,
            }
        }
    }
}

/// Transparent pixels are never changed by the recolouring.
pub proof fn lemma_transparent_pixels_kept(
    p: Rgba,
    x: u32,
    y: u32,
    white_palette: Seq<Rgba>,
    black_palette: Seq<Rgba>,
    apply_texture: bool,
)
    requires
        p.a == 0,
    ensures
        recolor_pixel_spec(p, x, y, white_palette, black_palette, apply_texture) == p,
{
}

/// A blended channel of a gray pixel lies between the pixel's own and the
/// body colour's.
pub proof fn lemma_blend_between(c: u8, target: u8, blend: int)
    requires
        0 <= blend <= 256,
    ensures
        (c <= target ==> c <= blend_channel(c, target, blend) <= target),
        (target <= c ==> target <= blend_channel(c, target, blend) <= c),
{
    let v = c * (256 - blend) + target * blend;
    let lo: int = if c <= target {
        c as int
    } else {
        target as int
    };
    let hi: int = if c <= target {
        target as int
    } else {
        c as int
    };
    assert(lo * 256 <= v <= hi * 256) by (nonlinear_arith)
        requires
            v == c * (256 - blend) + target * blend,
            0 <= blend <= 256,
            lo <= c <= hi,
            lo <= target <= hi,
    ;
    assert(lo <= v / 256 <= hi) by (nonlinear_arith)
        requires
            lo * 256 <= v <= hi * 256,
    ;
}

fn blend_channel_exec(c: u8, target: u8, blend: u16) -> (res: u8)
    requires
        blend <= 256,
    ensures
        res == blend_channel(c, target, blend as int),
{
    let inv: u16 = 256 - blend;
    proof {
        assert(c * inv <= 255 * inv) by (nonlinear_arith)
            requires
                c <= 255,
        ;
        assert(target * blend <= 255 * blend) by (nonlinear_arith)
            requires
                target <= 255,
        ;
    }
    let mixed: u16 = c as u16 * inv + target as u16 * blend;
    proof {
        assert(mixed >> 8 == mixed / 256) by (bit_vector);
    }
    (mixed >> 8) as u8
}

/// Recolours one pixel at (x, y).
pub fn recolor_pixel(
    p: Rgba,
    x: u32,
    y: u32,
    white_palette: &Vec<Rgba>,
    black_palette: &Vec<Rgba>,
    apply_texture: bool,
) -> (res: Rgba)
    requires
        white_palette@.len() > 0,
        black_palette@.len() > 0,
    ensures
        res == recolor_pixel_spec(p, x, y, white_palette@, black_palette@, apply_texture),
{
    if p.a == 0 {
        return p;
    }
    let weighted: u16 = (p.r as u16 + p.g as u16 + p.b as u16) * 85;
    proof {
        assert(weighted >> 8 == weighted / 256) by (bit_vector);
    }
    let brightness: u16 = weighted >> 8;
    if brightness < 64 {
        if apply_texture {
            pick_color_from_palette(black_palette, x, y)
        } else {
            black_palette[0]
        }
    } else if brightness > 200 {
        if apply_texture {
            pick_color_from_palette(white_palette, x, y)
        } else {
            white_palette[0]
        }
    } else {
        let c = if apply_texture {
            pick_color_from_palette(white_palette, x, y)
        } else {
            white_palette[0]
        };
        let blend_scaled: u32 = ((brightness as u32 - 64) * 256) / 136;
        let blend: u16 = if blend_scaled > 256 {
            256
        } else {
            blend_scaled as u16
        };
        Rgba {
            r: blend_channel_exec(p.r, c.r, blend),
            g: blend_channel_exec(p.g, c.g, blend),
            b: blend_channel_exec(p.b, c.b, blend),
            a: p.a,
        }
    }
}

/// The pixel stored at position `i` of an RGBA buffer.
pub open spec fn pixel_at(buf: Seq<u8>, i: int) -> Rgba {
    Rgba { r: buf[4 * i], g: buf[4 * i + 1], b: buf[4 * i + 2], a: buf[4 * i + 3] }
}

/// What pixel `j` of a `width`-wide image becomes: the rule applied at the
/// pixel's column and row.
pub open spec fn recolored_pixel(
    original: Seq<u8>,
    j: int,
    width: u32,
    white_palette: Seq<Rgba>,
    black_palette: Seq<Rgba>,
    apply_texture: bool,
) -> Rgba {
    recolor_pixel_spec(
        pixel_at(original, j),
        (j % (width as int)) as u32,
        (j / (width as int)) as u32,
        white_palette,
        black_palette,
        apply_texture,
    )
}

/// Recolours pixel `i`, at column `x` and row `y`, in place.
fn recolor_pixel_in_place(
    pixels: &mut Vec<u8>,
    i: usize,
    x: u32,
    y: u32,
    white_palette: &Vec<Rgba>,
    black_palette: &Vec<Rgba>,
    apply_texture: bool,
)
    requires
        4 * (i as int) + 4 <= old(pixels)@.len(),
        white_palette@.len() > 0,
        black_palette@.len() > 0,
    ensures
        final(pixels)@.len() == old(pixels)@.len(),
        pixel_at(final(pixels)@, i as int) == recolor_pixel_spec(
            pixel_at(old(pixels)@, i as int),
            x,
            y,
            white_palette@,
            black_palette@,
            apply_texture,
        ),
        forall|k: int|
            0 <= k < old(pixels)@.len() && !(4 * i <= k < 4 * i + 4) ==> #[trigger] final(pixels)@[k]
                == old(pixels)@[k],
{
    let len = pixels.len();
    let base = 4 * i;
    let p = Rgba { r: pixels[base], g: pixels[base + 1], b: pixels[base + 2], a: pixels[base + 3] };
    let q = recolor_pixel(p, x, y, white_palette, black_palette, apply_texture);
    pixels.set(base, q.r);
    pixels.set(base + 1, q.g);
    pixels.set(base + 2, q.b);
    pixels.set(base + 3, q.a);
}

/// Recolours the first `width * height` pixels of an RGBA buffer, row by row;
/// bytes after them are left as they are.
pub fn recolor_image(
    pixels: &mut Vec<u8>,
    width: u32,
    height: u32,
    white_palette: &Vec<Rgba>,
    black_palette: &Vec<Rgba>,
    apply_texture: bool,
)
    requires
        4 * ((width as int) * (height as int)) <= old(pixels)@.len(),
        white_palette@.len() > 0,
        black_palette@.len() > 0,
    ensures
        final(pixels)@.len() == old(pixels)@.len(),
        forall|i: int|
            0 <= i < (width as int) * (height as int) ==> #[trigger] pixel_at(final(pixels)@, i)
                == recolored_pixel(old(pixels)@, i, width, white_palette@, black_palette@, apply_texture),
        forall|k: int|
            4 * ((width as int) * (height as int)) <= k < old(pixels)@.len() ==> #[trigger] final(pixels)@[k]
                == old(pixels)@[k],
{
    let ghost original = pixels@;
    let ghost total: int = (width as int) * (height as int);
    let len = pixels.len();
    let mut y: u32 = 0;
    let mut i: usize = 0;
    while y < height
        invariant
            original.len() == pixels@.len(),
            len == original.len(),
            total == (width as int) * (height as int),
            4 * total <= original.len(),
            y <= height,
            i as int == (y as int) * (width as int),
            forall|j: int|
                0 <= j < i ==> #[trigger] pixel_at(pixels@, j) == recolored_pixel(
                    original,
                    j,
                    width,
                    white_palette@,
                    black_palette@,
                    apply_texture,
                ),
            forall|k: int| 4 * i <= k < original.len() ==> #[trigger] pixels@[k] == original[k],
            white_palette@.len() > 0,
            black_palette@.len() > 0,
        decreases height - y,
    {
        proof {
            assert((y as int) * (width as int) + (width as int) <= total) by (nonlinear_arith)
                requires
                    y < height,
                    total == (width as int) * (height as int),
            ;
        }
        let mut x: u32 = 0;
        while x < width
            invariant
                original.len() == pixels@.len(),
                len == original.len(),
                4 * total <= original.len(),
                x <= width,
                (y as int) * (width as int) + (width as int) <= total,
                i as int == (y as int) * (width as int) + x,
                forall|j: int|
                    0 <= j < i ==> #[trigger] pixel_at(pixels@, j) == recolored_pixel(
                        original,
                        j,
                        width,
                        white_palette@,
                        black_palette@,
                        apply_texture,
                    ),
                forall|k: int| 4 * i <= k < original.len() ==> #[trigger] pixels@[k] == original[k],
                white_palette@.len() > 0,
                black_palette@.len() > 0,
            decreases width - x,
        {
            proof {
                assert(pixel_at(pixels@, i as int) == pixel_at(original, i as int));
                vstd::arithmetic::div_mod::lemma_fundamental_div_mod_converse_mod(
                    i as int,
                    width as int,
                    y as int,
                    x as int,
                );
                vstd::arithmetic::div_mod::lemma_fundamental_div_mod_converse_div(
                    i as int,
                    width as int,
                    y as int,
                    x as int,
                );
            }
            let ghost before = pixels@;
            recolor_pixel_in_place(pixels, i, x, y, white_palette, black_palette, apply_texture);
            proof {
                assert forall|j: int| 0 <= j < i + 1 implies #[trigger] pixel_at(pixels@, j)
                    == recolored_pixel(
                    original,
                    j,
                    width,
                    white_palette@,
                    black_palette@,
                    apply_texture,
                ) by {
                    if j < i {
                        assert(pixels@[4 * j] == before[4 * j]);
                        assert(pixels@[4 * j + 1] == before[4 * j + 1]);
                        assert(pixels@[4 * j + 2] == before[4 * j + 2]);
                        assert(pixels@[4 * j + 3] == before[4 * j + 3]);
                        assert(pixel_at(pixels@, j) == pixel_at(before, j));
                    } else {
                        assert(j == i);
                        assert(x == (j % (width as int)) as u32);
                        assert(y == (j / (width as int)) as u32);
                    }
                }
                assert forall|k: int| 4 * (i + 1) <= k < original.len() implies #[trigger] pixels@[k]
                    == original[k] by {
                    assert(pixels@[k] == before[k]);
                }
            }
            i = i + 1;
            x = x + 1;
        }
        proof {
            assert((y as int + 1) * (width as int) == (y as int) * (width as int) + (width as int))
                by (nonlinear_arith);
        }
        y = y + 1;
    }
    proof {
        assert(i as int == total) by (nonlinear_arith)
            requires
                i as int == (y as int) * (width as int),
                y == height,
                total == (width as int) * (height as int),
        ;
    }
}


/// The hexadecimal digit of a value below 16, in upper or lower case.
pub open spec fn hex_digit_char(d: int, upper: bool) -> char {
    if d < 10 {
        (0x30 + d) as char
    } else if upper {
        (0x41 + d - 10) as char
    } else {
        (0x61 + d - 10) as char
    }
}

/// A byte as two hexadecimal digits, each in its own case.
pub open spec fn hex_byte_text(v: u8, upper_high: bool, upper_low: bool) -> Seq<char> {
    seq![hex_digit_char(v as int / 16, upper_high), hex_digit_char(v as int % 16, upper_low)]
}

/// Every digit `0`-`9`, `A`-`F`, `a`-`f` is a hexadecimal digit, whose value
/// is the one it denotes (`A` and `a` are both 10).
pub proof fn lemma_hex_digits(d: int, upper: bool)
    requires
        0 <= d < 16,
    ensures
        hex_digit_value(hex_digit_char(d, upper) as u8) == Some(d as u8),
{
}

proof fn lemma_hex_pair(v: u8, upper_high: bool, upper_low: bool)
    ensures
        hex_pair_value(
            hex_byte_text(v, upper_high, upper_low)[0] as u8,
            hex_byte_text(v, upper_high, upper_low)[1] as u8,
        ) == Some(v),
{
    lemma_hex_digits(v as int / 16, upper_high);
    lemma_hex_digits(v as int % 16, upper_low);
    assert((v as int / 16) * 16 + v as int % 16 == v);
}

/// A colour written as six hexadecimal digits, in any mix of upper and lower
/// case, with or without one leading `#`, reads back as that colour, fully
/// opaque.
#[verifier::rlimit(40)]
pub proof fn lemma_hex_color_round_trip(r: u8, g: u8, b: u8, hash: bool, cases: Seq<bool>)
    requires
        cases.len() == 6,
    ensures
        parse_hex_color_spec(
            (if hash {
                seq!['#']
            } else {
                Seq::<char>::empty()
            }) + hex_byte_text(r, cases[0], cases[1]) + hex_byte_text(g, cases[2], cases[3])
                + hex_byte_text(b, cases[4], cases[5]),
        ) == Ok::<Rgba, Seq<char>>(Rgba { r, g, b, a: 255 }),
{
    let prefix = if hash {
        seq!['#']
    } else {
        Seq::<char>::empty()
    };
    let tr = hex_byte_text(r, cases[0], cases[1]);
    let tg = hex_byte_text(g, cases[2], cases[3]);
    let tb = hex_byte_text(b, cases[4], cases[5]);
    let digits = tr + tg + tb;
    let text = prefix + tr + tg + tb;
    assert(text =~= prefix + digits);
    lemma_hex_pair(r, cases[0], cases[1]);
    lemma_hex_pair(g, cases[2], cases[3]);
    lemma_hex_pair(b, cases[4], cases[5]);
    lemma_hex_digits(r as int / 16, cases[0]);
    lemma_hex_digits(r as int % 16, cases[1]);
    lemma_hex_digits(g as int / 16, cases[2]);
    lemma_hex_digits(g as int % 16, cases[3]);
    lemma_hex_digits(b as int / 16, cases[4]);
    lemma_hex_digits(b as int % 16, cases[5]);
    assert forall|i: int| 0 <= i < digits.len() implies '\0' <= #[trigger] digits[i] <= '\u{7f}' by {
        if i < 2 {
            assert(digits[i] == tr[i]);
        } else if i < 4 {
            assert(digits[i] == tg[i - 2]);
        } else {
            assert(digits[i] == tb[i - 4]);
        }
    }
    assert(vstd::utf8::is_ascii_chars(text));
    vstd::utf8::is_ascii_chars_encode_utf8(text);
    let body = hex_body(encode_utf8(text));
    assert(body.len() == 6);
    assert(body[0] == tr[0] as u8 && body[1] == tr[1] as u8);
    assert(body[2] == tg[0] as u8 && body[3] == tg[1] as u8);
    assert(body[4] == tb[0] as u8 && body[5] == tb[1] as u8);
}

} // verus!
