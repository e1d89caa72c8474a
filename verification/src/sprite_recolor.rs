//! The doll sprite: the cat animation decoded once, every frame recoloured
//! with the doll's colours, written back as a looping GIF and handed out as
//! standard base64.

use vstd::prelude::*;

use base64::Engine;

use crate::auth_storage::b64_char;
use crate::gif_codec::{
    gif_encoding, gif_frame_result, gif_open_result, gif_reader_state,
    gif_writer_state, new_gif_writer, open_gif_reader, FrameView, GifDisposal,
};
use crate::recolor::{
    generate_color_palette, hex_slices_on_boundaries, palette_spec, parse_hex_color,
    parse_hex_color_spec, pixel_at, recolor_image, recolored_pixel, Rgba,
};

verus! {

/// One decoded frame: RGBA pixels, delay (10 ms units) and disposal.
#[derive(Debug, Clone)]
pub struct GifFrame {
    pub pixels: Vec<u8>,
    pub delay: u16,
    pub dispose: GifDisposal,
}

/// A decoded animation: the logical screen's size and its frames.
#[derive(Debug, Clone)]
pub struct DecodedGif {
    pub width: u16,
    pub height: u16,
    pub frames: Vec<GifFrame>,
}

/// The mathematical value of a decoded frame.
pub open spec fn frame_view(f: GifFrame) -> FrameView {
    (f.pixels@, f.delay, f.dispose)
}

/// The frames of an animation, as the decoder hands them out.
pub open spec fn frames_view(frames: Seq<GifFrame>) -> Seq<FrameView> {
    Seq::new(frames.len(), |i: int| frame_view(frames[i]))
}

/// The decoder hands out `frames` in this order, then reports the end.
pub open spec fn decodes_to(bytes: Seq<u8>, frames: Seq<FrameView>) -> bool {
    &&& forall|i: nat| i < frames.len() ==> #[trigger] gif_frame_result(bytes, i) == Ok::<
        Option<FrameView>,
        Seq<char>,
    >(Some(frames[i as int]))
    &&& gif_frame_result(bytes, frames.len()) == Ok::<Option<FrameView>, Seq<char>>(None)
}

/// The decoder hands out frames up to call `k`, which fails with `message`.
pub open spec fn decoding_fails_at(bytes: Seq<u8>, k: nat, message: Seq<char>) -> bool {
    &&& forall|i: nat| i < k ==> (#[trigger] gif_frame_result(bytes, i)) is Ok && gif_frame_result(bytes, i)->Ok_0 is Some
    &&& gif_frame_result(bytes, k) == Err::<Option<FrameView>, Seq<char>>(message)
}

/// Decodes an animation to RGBA frames, all of them, in order.
pub fn decode_gif_once(input_bytes: &[u8]) -> (res: Result<DecodedGif, String>)
    ensures
        match res {
            Ok(g) => gif_open_result(input_bytes@) == Ok::<(u16, u16), Seq<char>>((g.width, g.height))
                && decodes_to(input_bytes@, frames_view(g.frames@)),
            Err(m) => gif_open_result(input_bytes@) == Err::<(u16, u16), Seq<char>>(m@) || (
            gif_open_result(input_bytes@) is Ok && exists|k: nat|
                decoding_fails_at(input_bytes@, k, m@)),
        },
{
    let (mut reader, width, height) = match open_gif_reader(input_bytes) {
        Ok(opened) => opened,
        Err(m) => {
            return Err(m);
        },
    };
    let mut frames: Vec<GifFrame> = Vec::new();
    loop
        invariant
            gif_open_result(input_bytes@) == Ok::<(u16, u16), Seq<char>>((width, height)),
            gif_reader_state(reader) == (input_bytes@, frames@.len() as nat),
            forall|i: nat|
                i < frames@.len() ==> #[trigger] gif_frame_result(input_bytes@, i) == Ok::<
                    Option<FrameView>,
                    Seq<char>,
                >(Some(frame_view(frames@[i as int]))),
        decreases input_bytes@.len() - frames@.len(),
    {
        let ghost k = frames@.len() as nat;
        let next = reader.next_frame();
        match next {
            Ok(Some((pixels, delay, dispose))) => {
                frames.push(GifFrame { pixels, delay, dispose });
            },
            Ok(None) => {
                let g = DecodedGif { width, height, frames };
                proof {
                    assert(frames_view(g.frames@).len() == k);
                    assert forall|i: nat| i < frames_view(g.frames@).len() implies #[trigger] gif_frame_result(
                        input_bytes@,
                        i,
                    ) == Ok::<Option<FrameView>, Seq<char>>(Some(frames_view(g.frames@)[i as int])) by {}
                }
                return Ok(g);
            },
            Err(m) => {
                let res: Result<DecodedGif, String> = Err(m);
                proof {
                    assert(decoding_fails_at(input_bytes@, k, res->Err_0@));
                }
                return res;
            },
        }
    }
}

/// The palette the body or outline colour is drawn from: seven shades with
/// the texture on, the colour alone without.
pub open spec fn texture_palette(base: Rgba, apply_texture: bool) -> Seq<Rgba> {
    if apply_texture {
        palette_spec(base, 7)
    } else {
        seq![base]
    }
}

fn make_palette(base: Rgba, apply_texture: bool) -> (res: Vec<Rgba>)
    ensures
        res@ == texture_palette(base, apply_texture),
        res@.len() > 0,
{
    if apply_texture {
        generate_color_palette(base, 7)
    } else {
        let mut v: Vec<Rgba> = Vec::new();
        v.push(base);
        proof {
            assert(v@ =~= seq![base]);
        }
        v
    }
}

/// Channel `c` (0 red, 1 green, 2 blue, 3 alpha) of a colour.
pub open spec fn channel(p: Rgba, c: int) -> u8 {
    if c == 0 {
        p.r
    } else if c == 1 {
        p.g
    } else if c == 2 {
        p.b
    } else {
        p.a
    }
}

/// The bytes of a `width`-wide RGBA frame after recolouring: byte `k` is
/// channel `k % 4` of the recoloured pixel `k / 4`.
pub open spec fn recolored_bytes(
    pixels: Seq<u8>,
    width: u16,
    white_palette: Seq<Rgba>,
    black_palette: Seq<Rgba>,
    apply_texture: bool,
) -> Seq<u8> {
    Seq::new(
        pixels.len(),
        |k: int|
            channel(
                recolored_pixel(pixels, k / 4, width as u32, white_palette, black_palette, apply_texture),
                k % 4,
            ),
    )
}

/// A frame of the given size has room for its pixels (as
/// `image::RgbaImage::from_raw` checks: four bytes per pixel, the total
/// fitting in `usize`).
pub open spec fn frame_fits(len: nat, width: u16, height: u16) -> bool {
    4 * ((width as int) * (height as int)) <= usize::MAX && 4 * ((width as int) * (height as int)) <= len
}

/// Every frame's pixels fill the screen.
pub open spec fn all_frames_fit(gif: DecodedGif) -> bool {
    forall|i: int|
        0 <= i < gif.frames@.len() ==> frame_fits(
            #[trigger] gif.frames@[i].pixels@.len(),
            gif.width,
            gif.height,
        )
}

/// The message of a frame whose pixels do not fill the screen.
pub open spec fn frame_error_message() -> Seq<char> {
    "Failed to create image from frame"@
}

/// The frames after recolouring, delays and disposals kept.
pub open spec fn recolored_frames(
    frames: Seq<GifFrame>,
    width: u16,
    white: Rgba,
    black: Rgba,
    apply_texture: bool,
) -> Seq<FrameView> {
    Seq::new(
        frames.len(),
        |i: int|
            (
                recolored_bytes(
                    frames[i].pixels@,
                    width,
                    texture_palette(white, apply_texture),
                    texture_palette(black, apply_texture),
                    apply_texture,
                ),
                frames[i].delay,
                frames[i].dispose,
            ),
    )
}

proof fn lemma_recolored_bytes(
    before: Seq<u8>,
    after: Seq<u8>,
    width: u16,
    height: u16,
    wp: Seq<Rgba>,
    bp: Seq<Rgba>,
    apply_texture: bool,
)
    requires
        before.len() == 4 * ((width as int) * (height as int)),
        after.len() == before.len(),
        forall|i: int|
            0 <= i < (width as int) * (height as int) ==> #[trigger] pixel_at(after, i)
                == recolored_pixel(before, i, width as u32, wp, bp, apply_texture),
    ensures
        after == recolored_bytes(before, width, wp, bp, apply_texture),
{
    let target = recolored_bytes(before, width, wp, bp, apply_texture);
    assert forall|k: int| 0 <= k < after.len() implies after[k] == target[k] by {
        let i = k / 4;
        assert(0 <= i < (width as int) * (height as int));
        assert(k == 4 * i + k % 4);
        let p = pixel_at(after, i);
        assert(p == recolored_pixel(before, i, width as u32, wp, bp, apply_texture));
    }
    assert(after =~= target);
}

/// Recolours every frame with the doll's colours and writes them, in order and
/// with their delays and disposals, as a looping GIF of the same size.
pub fn recolor_gif_frames(
    decoded_gif: &DecodedGif,
    white_color: Rgba,
    black_color: Rgba,
    apply_texture: bool,
) -> (res: Result<Vec<u8>, String>)
    requires
        forall|i: int|
            0 <= i < decoded_gif.frames@.len() ==> #[trigger] decoded_gif.frames@[i].pixels@.len() <= 4
                * ((decoded_gif.width as int) * (decoded_gif.height as int)),
    ensures
        all_frames_fit(*decoded_gif) ==> (res matches Ok(bytes) && bytes@ == gif_encoding(
            decoded_gif.width,
            decoded_gif.height,
            true,
            recolored_frames(
                decoded_gif.frames@,
                decoded_gif.width,
                white_color,
                black_color,
                apply_texture,
            ),
        )),
        !all_frames_fit(*decoded_gif) ==> (res matches Err(m) && m@ == frame_error_message()),
{
    let width = decoded_gif.width;
    let height = decoded_gif.height;
    let mut writer = match new_gif_writer(width, height) {
        Ok(w) => w,
        Err(m) => {
            return Err(m);
        },
    };
    match writer.loop_forever() {
        Ok(()) => {},
        Err(m) => {
            return Err(m);
        },
    }
    let white_palette = make_palette(white_color, apply_texture);
    let black_palette = make_palette(black_color, apply_texture);
    let ghost target = recolored_frames(
        decoded_gif.frames@,
        width,
        white_color,
        black_color,
        apply_texture,
    );
    proof {
        assert((width as int) * (height as int) <= 65535 * 65535) by (nonlinear_arith)
            requires
                width <= 65535,
                height <= 65535,
        ;
    }
    let needed: u64 = 4 * ((width as u64) * (height as u64));
    let n = decoded_gif.frames.len();
    let mut idx: usize = 0;
    while idx < n
        invariant
            n == decoded_gif.frames@.len(),
            idx <= n,
            needed == 4 * ((width as int) * (height as int)),
            width == decoded_gif.width,
            height == decoded_gif.height,
            white_palette@ == texture_palette(white_color, apply_texture),
            black_palette@ == texture_palette(black_color, apply_texture),
            target == recolored_frames(
                decoded_gif.frames@,
                width,
                white_color,
                black_color,
                apply_texture,
            ),
            gif_writer_state(writer) == (width, height, true, target.subrange(0, idx as int)),
            forall|i: int| 0 <= i < idx ==> frame_fits(
                #[trigger] decoded_gif.frames@[i].pixels@.len(),
                width,
                height,
            ),
            forall|i: int|
                0 <= i < decoded_gif.frames@.len() ==> #[trigger] decoded_gif.frames@[i].pixels@.len()
                    <= 4 * ((decoded_gif.width as int) * (decoded_gif.height as int)),
        decreases n - idx,
    {
        let frame = &decoded_gif.frames[idx];
        let len = frame.pixels.len();
        if needed > usize::MAX as u64 || (len as u64) < needed {
            proof {
                assert(!frame_fits(decoded_gif.frames@[idx as int].pixels@.len(), width, height));
            }
            proof {
                reveal_strlit("Failed to create image from frame");
            }
            return Err(String::from_str("Failed to create image from frame"));
        }
        let mut pixels = frame.pixels.clone();
        let ghost before = pixels@;
        recolor_image(&mut pixels, width as u32, height as u32, &white_palette, &black_palette, apply_texture);
        proof {
            lemma_recolored_bytes(
                before,
                pixels@,
                width,
                height,
                white_palette@,
                black_palette@,
                apply_texture,
            );
        }
        match writer.write_rgba_frame(pixels, frame.delay, frame.dispose) {
            Ok(()) => {},
            Err(m) => {
                return Err(m);
            },
        }
        proof {
            assert(target.subrange(0, idx as int).push(target[idx as int]) =~= target.subrange(0, idx + 1));
        }
        idx = idx + 1;
    }
    proof {
        assert(target.subrange(0, n as int) =~= target);
    }
    writer.finish()
}

/// The standard base64 alphabet.
pub open spec fn b64_std_char(v: int) -> char {
    if v < 62 {
        b64_char(v)
    } else if v == 62 {
        '+'
    } else {
        '/'
    }
}

/// Standard base64 with padding: each group of three bytes gives four
/// characters; a final one or two bytes give two or three, padded with `=`
/// to four.
pub open spec fn b64_std_encode(b: Seq<u8>) -> Seq<char>
    decreases b.len(),
{
    if b.len() == 0 {
        Seq::empty()
    } else if b.len() == 1 {
        seq![b64_std_char((b[0] as int) / 4), b64_std_char(((b[0] as int) % 4) * 16), '=', '=']
    } else if b.len() == 2 {
        seq![
            b64_std_char((b[0] as int) / 4),
            b64_std_char(((b[0] as int) % 4) * 16 + (b[1] as int) / 16),
            b64_std_char(((b[1] as int) % 16) * 4),
            '=',
        ]
    } else {
        seq![
            b64_std_char((b[0] as int) / 4),
            b64_std_char(((b[0] as int) % 4) * 16 + (b[1] as int) / 16),
            b64_std_char(((b[1] as int) % 16) * 4 + (b[2] as int) / 64),
            b64_std_char((b[2] as int) % 64),
        ] + b64_std_encode(b.subrange(3, b.len() as int))
    }
}

/// `base64::engine::general_purpose::STANDARD.encode`: standard alphabet,
/// padded.
#[verifier::external_body]
pub(crate) fn b64_standard_encode(bytes: &[u8]) -> (res: String)
    ensures
        res@ == b64_std_encode(bytes@),
{
    base64::engine::general_purpose::STANDARD.encode(bytes)
}

/// The recoloured animation as base64: the body colour's parse error, else
/// the outline colour's, else the refusal of a frame that does not fill the
/// screen, else the base64 of the looping GIF of the recoloured frames.
pub open spec fn recolor_b64_spec(
    white_hex: Seq<char>,
    black_hex: Seq<char>,
    apply_texture: bool,
    gif: DecodedGif,
) -> Result<Seq<char>, Seq<char>> {
    match (parse_hex_color_spec(white_hex), parse_hex_color_spec(black_hex)) {
        (Err(m), _) => Err(m),
        (Ok(_), Err(m)) => Err(m),
        (Ok(white), Ok(black)) => if all_frames_fit(gif) {
            Ok(
                b64_std_encode(
                    gif_encoding(
                        gif.width,
                        gif.height,
                        true,
                        recolored_frames(gif.frames@, gif.width, white, black, apply_texture),
                    ),
                ),
            )
        } else {
            Err(frame_error_message())
        },
    }
}

/// The doll's sprite: the animation recoloured with the body (`white`) and
/// outline (`black`) colours, as base64 of the GIF bytes. A colour that is not
/// `#rrggbb` is refused with the parse error; the body colour is read first.
pub fn recolor_gif_base64(
    white_color_hex: &str,
    black_color_hex: &str,
    apply_texture: bool,
    decoded_gif: &DecodedGif,
) -> (res: Result<String, String>)
    requires
        hex_slices_on_boundaries(white_color_hex@),
        hex_slices_on_boundaries(black_color_hex@),
        forall|i: int|
            0 <= i < decoded_gif.frames@.len() ==> #[trigger] decoded_gif.frames@[i].pixels@.len() <= 4
                * ((decoded_gif.width as int) * (decoded_gif.height as int)),
    ensures
        match res {
            Ok(s) => recolor_b64_spec(white_color_hex@, black_color_hex@, apply_texture, *decoded_gif)
                == Ok::<Seq<char>, Seq<char>>(s@),
            Err(e) => recolor_b64_spec(white_color_hex@, black_color_hex@, apply_texture, *decoded_gif)
                == Err::<Seq<char>, Seq<char>>(e@),
        },
{
    let white_color = match parse_hex_color(white_color_hex) {
        Ok(c) => c,
        Err(m) => {
            return Err(m);
        },
    };
    let black_color = match parse_hex_color(black_color_hex) {
        Ok(c) => c,
        Err(m) => {
            return Err(m);
        },
    };
    match recolor_gif_frames(decoded_gif, white_color, black_color, apply_texture) {
        Ok(bytes) => Ok(b64_standard_encode(bytes.as_slice())),
        Err(m) => Err(m),
    }
}

} // verus!
