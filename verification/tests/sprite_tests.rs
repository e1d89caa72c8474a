use base64::Engine;
use friendolls::gif_codec::GifDisposal;
use friendolls::models::{
    DollColorScheme, DollConfiguration, DollDto, UserData, UserProfile,
};
use friendolls::recolor::{
    generate_color_palette, parse_hex_color, pick_color_from_palette, recolor_image, recolor_pixel,
    Rgba,
};
use friendolls::sprite::{encode_doll_sprite_base64, get_active_doll, get_active_doll_sprite_base64};
use friendolls::sprite_recolor::{
    decode_gif_once, recolor_gif_base64, recolor_gif_frames, DecodedGif, GifFrame,
};

fn rgba(r: u8, g: u8, b: u8, a: u8) -> Rgba {
    Rgba { r, g, b, a }
}

fn doll(id: &str, body: &str, outline: &str) -> DollDto {
    DollDto {
        id: id.to_string(),
        name: format!("doll {}", id),
        configuration: DollConfiguration {
            color_scheme: DollColorScheme { body: body.to_string(), outline: outline.to_string() },
        },
    }
}

/// A 2x2 animation of one frame: white, black, transparent, gray pixels.
fn tiny_gif_bytes() -> Vec<u8> {
    let mut pixels: Vec<u8> = vec![
        255, 255, 255, 255, //
        0, 0, 0, 255, //
        10, 20, 30, 0, //
        128, 128, 128, 255,
    ];
    let mut out = Vec::new();
    {
        let mut encoder = gif::Encoder::new(&mut out, 2, 2, &[]).unwrap();
        let mut frame = gif::Frame::from_rgba_speed(2, 2, &mut pixels, 10);
        frame.delay = 7;
        encoder.write_frame(&frame).unwrap();
    }
    out
}

fn decode_pixels(bytes: &[u8]) -> Vec<u8> {
    let mut options = gif::DecodeOptions::new();
    options.set_color_output(gif::ColorOutput::RGBA);
    let mut decoder = options.read_info(bytes).unwrap();
    decoder.read_next_frame().unwrap().unwrap().buffer.to_vec()
}

#[test]
fn parse_hex_color_with_and_without_hash() {
    assert_eq!(parse_hex_color("#ff8000").unwrap(), rgba(255, 128, 0, 255));
    assert_eq!(parse_hex_color("ff8000").unwrap(), rgba(255, 128, 0, 255));
    assert_eq!(parse_hex_color("#FFFFFF").unwrap(), rgba(255, 255, 255, 255));
}

#[test]
fn parse_hex_color_wrong_length() {
    assert_eq!(parse_hex_color("#ff80").unwrap_err(), "Hex color must be 6 characters");
    assert_eq!(parse_hex_color("").unwrap_err(), "Hex color must be 6 characters");
    assert_eq!(parse_hex_color("##ff8000").unwrap_err(), "Hex color must be 6 characters");
}

#[test]
fn parse_hex_color_bad_digit() {
    assert_eq!(parse_hex_color("#gg0000").unwrap_err(), "invalid digit found in string");
    assert_eq!(parse_hex_color("#00 000").unwrap_err(), "invalid digit found in string");
}

#[test]
fn parse_hex_color_accepts_plus_sign_pairs() {
    // `u8::from_str_radix` takes a leading `+`.
    assert_eq!(parse_hex_color("+f+f+f").unwrap(), rgba(15, 15, 15, 255));
}

#[test]
fn palette_of_seven_shades() {
    let p = generate_color_palette(rgba(100, 100, 100, 200), 7);
    let reds: Vec<u8> = p.iter().map(|c| c.r).collect();
    assert_eq!(reds, vec![75, 83, 91, 99, 107, 115, 123]);
    assert!(p.iter().all(|c| c.a == 200));
}

#[test]
fn palette_clamps_channels() {
    let p = generate_color_palette(rgba(10, 250, 128, 255), 7);
    assert_eq!(p[0], rgba(0, 225, 103, 255));
    assert_eq!(p[6], rgba(33, 255, 151, 255));
}

#[test]
fn palette_of_one_shade() {
    let p = generate_color_palette(rgba(100, 100, 100, 255), 1);
    assert_eq!(p, vec![rgba(75, 75, 75, 255)]);
}

#[test]
fn pick_color_is_a_position_hash() {
    let palette: Vec<Rgba> = (0..7u8).map(|i| rgba(i, 0, 0, 255)).collect();
    // 374761393 % 7 == 6
    assert_eq!(pick_color_from_palette(&palette, 1, 0).r, 6);
    assert_eq!(pick_color_from_palette(&palette, 0, 0).r, 0);
    // 668265263 % 7 == 1, so (1, 1) gives (6 + 1) % 7 == 0
    assert_eq!(pick_color_from_palette(&palette, 1, 1).r, 0);
    assert_eq!(pick_color_from_palette(&palette, 0, 1).r, 1);
    // the same pixel always gets the same colour
    assert_eq!(pick_color_from_palette(&palette, 123, 456), pick_color_from_palette(&palette, 123, 456));
}

#[test]
fn recolor_pixel_rules() {
    let white = vec![rgba(200, 10, 10, 255)];
    let black = vec![rgba(1, 2, 3, 255)];
    // transparent pixels stay
    assert_eq!(recolor_pixel(rgba(9, 9, 9, 0), 0, 0, &white, &black, false), rgba(9, 9, 9, 0));
    // dark pixels take the outline colour
    assert_eq!(recolor_pixel(rgba(0, 0, 0, 255), 0, 0, &white, &black, false), rgba(1, 2, 3, 255));
    // light pixels take the body colour
    assert_eq!(recolor_pixel(rgba(255, 255, 255, 255), 0, 0, &white, &black, false), rgba(200, 10, 10, 255));
    // gray pixels are blended: brightness 127, blend 118 of 256
    assert_eq!(
        recolor_pixel(rgba(128, 128, 128, 77), 0, 0, &white, &black, false),
        rgba(161, 73, 73, 77)
    );
}

#[test]
fn recolor_image_keeps_trailing_bytes() {
    let white = vec![rgba(200, 10, 10, 255)];
    let black = vec![rgba(1, 2, 3, 255)];
    let mut buf = vec![255, 255, 255, 255, 0, 0, 0, 255, 42, 43];
    recolor_image(&mut buf, 2, 1, &white, &black, false);
    assert_eq!(buf, vec![200, 10, 10, 255, 1, 2, 3, 255, 42, 43]);
}

#[test]
fn decode_tiny_gif() {
    let bytes = tiny_gif_bytes();
    let g = decode_gif_once(&bytes).unwrap();
    assert_eq!((g.width, g.height), (2, 2));
    assert_eq!(g.frames.len(), 1);
    assert_eq!(g.frames[0].delay, 7);
    assert_eq!(g.frames[0].pixels.len(), 16);
    assert_eq!(&g.frames[0].pixels[0..8], &[255, 255, 255, 255, 0, 0, 0, 255]);
}

#[test]
fn decode_rejects_garbage() {
    assert!(decode_gif_once(b"not a gif").is_err());
}

#[test]
fn recolor_gif_frames_recolors_each_pixel() {
    let g = decode_gif_once(&tiny_gif_bytes()).unwrap();
    let out = recolor_gif_frames(&g, rgba(200, 10, 10, 255), rgba(1, 2, 3, 255), false).unwrap();
    let pixels = decode_pixels(&out);
    assert_eq!(&pixels[0..4], &[200, 10, 10, 255]);
    assert_eq!(&pixels[4..8], &[1, 2, 3, 255]);
    assert_eq!(pixels[11], 0);
}

#[test]
fn recolor_gif_frames_refuses_short_frame() {
    let g = DecodedGif {
        width: 2,
        height: 2,
        frames: vec![GifFrame { pixels: vec![0; 8], delay: 0, dispose: GifDisposal::Keep }],
    };
    assert_eq!(
        recolor_gif_frames(&g, rgba(1, 1, 1, 255), rgba(2, 2, 2, 255), false).unwrap_err(),
        "Failed to create image from frame"
    );
}

#[test]
fn recolor_gif_frames_without_frames_is_an_empty_looping_gif() {
    let g = DecodedGif { width: 3, height: 2, frames: vec![] };
    let out = recolor_gif_frames(&g, rgba(1, 1, 1, 255), rgba(2, 2, 2, 255), true).unwrap();
    assert_eq!(&out[0..6], b"GIF89a");
    assert_eq!(&out[6..10], &[3, 0, 2, 0]);
    assert_eq!(out.last(), Some(&0x3b));
    let back = decode_gif_once(&out).unwrap();
    assert_eq!((back.width, back.height, back.frames.len()), (3, 2, 0));
}

#[test]
fn recolor_gif_base64_is_standard_base64_of_a_gif() {
    let g = decode_gif_once(&tiny_gif_bytes()).unwrap();
    let text = recolor_gif_base64("#c80a0a", "#010203", false, &g).unwrap();
    let bytes = base64::engine::general_purpose::STANDARD.decode(&text).unwrap();
    assert_eq!(&bytes[0..6], b"GIF89a");
    assert_eq!(&decode_pixels(&bytes)[0..4], &[200, 10, 10, 255]);
}

#[test]
fn recolor_gif_base64_reports_the_body_colour_first() {
    let g = decode_gif_once(&tiny_gif_bytes()).unwrap();
    assert_eq!(recolor_gif_base64("#zz0000", "#12", true, &g).unwrap_err(), "invalid digit found in string");
    assert_eq!(recolor_gif_base64("#000000", "#12", true, &g).unwrap_err(), "Hex color must be 6 characters");
}

#[test]
fn active_doll_is_found_by_id() {
    let data = UserData {
        user: Some(UserProfile { id: "u1".to_string(), active_doll_id: Some("d2".to_string()) }),
        friends: None,
        dolls: Some(vec![doll("d1", "#000000", "#ffffff"), doll("d2", "#111111", "#222222")]),
    };
    let found = get_active_doll(&data).unwrap();
    assert_eq!(found.id, "d2");
    assert_eq!(found.configuration.color_scheme.outline, "#222222");
}

#[test]
fn no_active_doll_without_profile_id_or_match() {
    let mut data = UserData::new();
    assert!(get_active_doll(&data).is_none());
    data.user = Some(UserProfile { id: "u1".to_string(), active_doll_id: None });
    data.dolls = Some(vec![doll("d1", "#000000", "#ffffff")]);
    assert!(get_active_doll(&data).is_none());
    data.user = Some(UserProfile { id: "u1".to_string(), active_doll_id: Some("zz".to_string()) });
    assert!(get_active_doll(&data).is_none());
    let g = decode_gif_once(&tiny_gif_bytes()).unwrap();
    assert_eq!(get_active_doll_sprite_base64(&data, &g).unwrap(), None);
}

#[test]
fn active_doll_sprite_matches_the_doll_sprite() {
    let g = decode_gif_once(&tiny_gif_bytes()).unwrap();
    let d = doll("d1", "#336699", "#000000");
    let data = UserData {
        user: Some(UserProfile { id: "u1".to_string(), active_doll_id: Some("d1".to_string()) }),
        friends: None,
        dolls: Some(vec![doll("d1", "#336699", "#000000")]),
    };
    let direct = encode_doll_sprite_base64(&d, &g).unwrap();
    assert_eq!(get_active_doll_sprite_base64(&data, &g).unwrap(), Some(direct));
}
