//! The "pet the doll" animation: a random sprite of the doll's recoloured
//! sprite sheet, patted by a hand through the `petpet` crate, as base64 GIF.

use vstd::prelude::*;

use crate::sprite_recolor::{b64_standard_encode, b64_std_encode};

verus! {

/// Side of a sprite of the sheet, in pixels.
pub const SPRITE_SIZE: u32 = 32;

/// The top-left corners of the sprites that may be patted.
pub open spec fn sprite_frames() -> Seq<(u32, u32)> {
    seq![
        (160u32, 125u32), (32, 125), (192, 0), (224, 0), (32, 0), (0, 0), (0, 127), (32, 127),
        (224, 126), (224, 96), (224, 64), (160, 0), (160, 127), (160, 126), (224, 0), (224, 127),
        (32, 126), (32, 125), (0, 126), (0, 125), (160, 0), (160, 127), (192, 127), (192, 126),
        (224, 125), (32, 126), (192, 125), (224, 127), (160, 126), (160, 125), (224, 0), (224, 127),
    ]
}

fn sprite_frames_vec() -> (res: Vec<(u32, u32)>)
    ensures
        res@ == sprite_frames(),
{
    let v = vec![
        (160u32, 125u32), (32, 125), (192, 0), (224, 0), (32, 0), (0, 0), (0, 127), (32, 127),
        (224, 126), (224, 96), (224, 64), (160, 0), (160, 127), (160, 126), (224, 0), (224, 127),
        (32, 126), (32, 125), (0, 126), (0, 125), (160, 0), (160, 127), (192, 127), (192, 126),
        (224, 125), (32, 126), (192, 125), (224, 127), (160, 126), (160, 125), (224, 0), (224, 127),
    ];
    assert(v@ =~= sprite_frames());
    v
}

/// An RGBA image: its size and four bytes per pixel, row after row.
pub struct RgbaSheet {
    pub width: u32,
    pub height: u32,
    pub pixels: Vec<u8>,
}

/// The sheet's pixel buffer has four bytes per pixel.
pub open spec fn sheet_ok(sheet: RgbaSheet) -> bool {
    sheet.pixels@.len() == 4 * (sheet.width as int) * (sheet.height as int)
}

/// Every sprite corner lies inside the sheet, so each crop has pixels.
pub open spec fn sheet_covers_frames(sheet: RgbaSheet) -> bool {
    forall|i: int|
        0 <= i < sprite_frames().len() ==> (#[trigger] sprite_frames()[i]).0 < sheet.width
            && sprite_frames()[i].1 < sheet.height
}

/// The rectangle `image::imageops::crop_imm` keeps: the corner clamped into
/// the image, the size clamped to what is left of it.
pub open spec fn crop_box(iw: u32, ih: u32, x: u32, y: u32, w: u32, h: u32) -> (u32, u32, u32, u32) {
    let x2 = if x < iw { x } else { iw };
    let y2 = if y < ih { y } else { ih };
    let w2 = if w < iw - x2 { w } else { (iw - x2) as u32 };
    let h2 = if h < ih - y2 { h } else { (ih - y2) as u32 };
    (x2, y2, w2, h2)
}

/// The RGBA bytes of the rectangle `(bx, by, bw, bh)` of an image `iw` pixels
/// wide, row after row.
pub open spec fn cropped_rgba(iw: u32, pixels: Seq<u8>, bx: u32, by: u32, bw: u32, bh: u32) -> Seq<u8> {
    Seq::new(
        (4 * (bw as int) * (bh as int)) as nat,
        |k: int|
            pixels[4 * ((by + (k / 4) / (bw as int)) * (iw as int) + bx + (k / 4) % (bw as int)) + k
                % 4],
    )
}

/// `image::imageops::crop_imm` of the image at `(x, y)` with size `(w, h)`,
/// copied out with `to_image`: the rectangle clamped into the image, its
/// pixels row after row.
#[verifier::external_body]
fn crop_rgba(width: u32, height: u32, pixels: Vec<u8>, x: u32, y: u32, w: u32, h: u32) -> (res: (
    u32,
    u32,
    Vec<u8>,
))
    requires
        pixels@.len() == 4 * (width as int) * (height as int),
    ensures
        ({
            let (bx, by, bw, bh) = crop_box(width, height, x, y, w, h);
            res.0 == bw && res.1 == bh && res.2@ == cropped_rgba(width, pixels@, bx, by, bw, bh)
        }),
{
    let image = image::RgbaImage::from_raw(width, height, pixels).expect("four bytes per pixel");
    let sprite = image::imageops::crop_imm(&image, x, y, w, h).to_image();
    (sprite.width(), sprite.height(), sprite.into_raw())
}

/// A random index below `count`, from the thread's random generator. Nothing
/// more is claimed: it is chance.
#[verifier::external_body]
fn random_index(count: usize) -> (res: usize)
    requires
        count > 0,
    ensures
        res < count,
{
    rand::random_range(0..count)
}

/// A sprite cropped from the sheet at the corner `corner`.
pub open spec fn sprite_at(sheet: RgbaSheet, corner: (u32, u32)) -> RgbaSheetView {
    let (bx, by, bw, bh) = crop_box(
        sheet.width,
        sheet.height,
        corner.0,
        corner.1,
        SPRITE_SIZE,
        SPRITE_SIZE,
    );
    RgbaSheetView { width: bw, height: bh, pixels: cropped_rgba(sheet.width, sheet.pixels@, bx, by, bw, bh) }
}

/// The mathematical value of an [`RgbaSheet`].
pub struct RgbaSheetView {
    pub width: u32,
    pub height: u32,
    pub pixels: Seq<u8>,
}

impl View for RgbaSheet {
    type V = RgbaSheetView;

    open spec fn view(&self) -> RgbaSheetView {
        RgbaSheetView { width: self.width, height: self.height, pixels: self.pixels@ }
    }
}

/// A `SPRITE_SIZE` square sprite at one of `sprite_frames`, chosen at
/// random, cropped out of the sheet.
pub fn crop_random_sprite(sheet: &RgbaSheet) -> (res: RgbaSheet)
    requires
        sheet_ok(*sheet),
        sheet_covers_frames(*sheet),
    ensures
        exists|i: int| 0 <= i < sprite_frames().len() && res@ == sprite_at(*sheet, #[trigger] sprite_frames()[i]),
        res.width > 0 && res.height > 0,
        sheet_ok(res),
{
    let frames = sprite_frames_vec();
    let i = random_index(frames.len());
    let (x, y) = frames[i];
    proof {
        assert(sprite_frames()[i as int] == (x, y));
    }
    let (w, h, pixels) = crop_rgba(sheet.width, sheet.height, sheet.pixels.clone(), x, y, SPRITE_SIZE, SPRITE_SIZE);
    proof {
        assert(pixels@.len() == 4 * (w as int) * (h as int));
    }
    RgbaSheet { width: w, height: h, pixels }
}

/// Why the `petpet` crate could not make the animation.
pub enum PetpetFailure {
    /// `generate` refused the sprite.
    Generate(String),
    /// `encode_gif` failed.
    Encode(String),
}

/// The mathematical value of a [`PetpetFailure`].
pub enum PetpetFailureView {
    Generate(Seq<char>),
    Encode(Seq<char>),
}

/// What `petpet::generate` (Lanczos3 filter, default delay) followed by
/// `petpet::encode_gif` at speed 10 makes of an RGBA sprite: the GIF bytes, or
/// the message of the step that failed.
pub uninterp spec fn petpet_gif_result(width: u32, height: u32, rgba: Seq<u8>) -> Result<Seq<u8>, PetpetFailureView>;

/// `petpet::generate` over the sprite (as the crate's own `image` version's
/// `RgbaImage`), then `petpet::encode_gif` into memory at speed 10; the
/// outcome is named by `petpet_gif_result`.
#[verifier::external_body]
fn petpet_gif(width: u32, height: u32, rgba: Vec<u8>) -> (res: Result<Vec<u8>, PetpetFailure>)
    requires
        rgba@.len() == 4 * (width as int) * (height as int),
        width > 0,
        height > 0,
    ensures
        match res {
            Ok(b) => petpet_gif_result(width, height, rgba@) == Ok::<Seq<u8>, PetpetFailureView>(b@),
            Err(PetpetFailure::Generate(m)) => petpet_gif_result(width, height, rgba@) == Err::<
                Seq<u8>,
                PetpetFailureView,
            >(PetpetFailureView::Generate(m@)),
            Err(PetpetFailure::Encode(m)) => petpet_gif_result(width, height, rgba@) == Err::<
                Seq<u8>,
                PetpetFailureView,
            >(PetpetFailureView::Encode(m@)),
        },
{
    let image = petpet::image::RgbaImage::from_raw(width, height, rgba).expect("four bytes per pixel");
    let frames = match petpet::generate(image, petpet::FilterType::Lanczos3, None) {
        Ok(frames) => frames,
        Err(e) => return Err(PetpetFailure::Generate(e.to_string())),
    };
    let mut output: Vec<u8> = Vec::new();
    match petpet::encode_gif(frames, &mut output, 10) {
        Ok(()) => Ok(output),
        Err(e) => Err(PetpetFailure::Encode(e.to_string())),
    }
}

/// The petted sprite as base64 GIF: the animation's standard base64, or the
/// failure's message after what failed.
pub open spec fn pet_sprite_b64(sprite: RgbaSheetView) -> Result<Seq<char>, Seq<char>> {
    match petpet_gif_result(sprite.width, sprite.height, sprite.pixels) {
        Ok(b) => Ok(b64_std_encode(b)),
        Err(PetpetFailureView::Generate(m)) => Err("Failed to generate petpet frames: "@ + m),
        Err(PetpetFailureView::Encode(m)) => Err("Failed to encode GIF: "@ + m),
    }
}

/// The "pet the doll" animation from the doll's recoloured sprite sheet (or
/// the error of recolouring it): a random sprite, patted, as base64 GIF.
pub fn encode_pet_doll_gif_base64(recolored: Result<RgbaSheet, String>) -> (res: Result<String, String>)
    requires
        recolored matches Ok(sheet) ==> sheet_ok(sheet) && sheet_covers_frames(sheet),
    ensures
        match recolored {
            Err(e) => res matches Err(m) && m@ == "Failed to recolor image: "@ + e@,
            Ok(sheet) => exists|i: int|
                0 <= i < sprite_frames().len() && #[trigger] pet_sprite_b64(
                    sprite_at(sheet, sprite_frames()[i]),
                ) == match res {
                    Ok(s) => Ok::<Seq<char>, Seq<char>>(s@),
                    Err(m) => Err::<Seq<char>, Seq<char>>(m@),
                },
        },
{
    let sheet = match recolored {
        Ok(sheet) => sheet,
        Err(e) => {
            return Err(String::from_str("Failed to recolor image: ").concat(e.as_str()));
        },
    };
    let sprite = crop_random_sprite(&sheet);
    let ghost chosen = sprite@;
    let res = match petpet_gif(sprite.width, sprite.height, sprite.pixels) {
        Ok(bytes) => Ok(b64_standard_encode(bytes.as_slice())),
        Err(PetpetFailure::Generate(m)) => Err(
            String::from_str("Failed to generate petpet frames: ").concat(m.as_str()),
        ),
        Err(PetpetFailure::Encode(m)) => Err(String::from_str("Failed to encode GIF: ").concat(m.as_str())),
    };
    proof {
        let i = choose|i: int| 0 <= i < sprite_frames().len() && chosen == sprite_at(sheet, #[trigger] sprite_frames()[i]);
        assert(pet_sprite_b64(sprite_at(sheet, sprite_frames()[i])) == match res {
            Ok(s) => Ok::<Seq<char>, Seq<char>>(s@),
            Err(m) => Err::<Seq<char>, Seq<char>>(m@),
        });
    }
    res
}

} // verus!
