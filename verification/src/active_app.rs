//! The application in the foreground: its names and icon, as reported to
//! friends; the icon is a 64x64 PNG in standard base64, cached by executable
//! path.

use vstd::prelude::*;

use crate::icon_cache::{get_spec, put_spec, IconCache};
use crate::sprite_recolor::{b64_standard_encode, b64_std_encode};
use crate::text::{to_owned_string, trim, trim_spec};

verus! {

/// Side of the square icons, in pixels.
pub const ICON_SIZE: u32 = 64;

/// Largest icon accepted as base64 text: a 64x64 PNG is well under it; more
/// means a multi-representation or uncompressed image that would not fit a
/// message to friends.
pub const MAX_ICON_B64_SIZE: usize = 50_000;

/// Name of the event sent to the windows when the foreground application
/// changes.
pub const ACTIVE_APP_CHANGED: &'static str = "active-app-changed";

/// The user's state reported with the foreground application.
pub const USER_STATE_IDLE: &'static str = "idle";

/// The foreground application's localized and unlocalized names and its
/// icon as base64 PNG, each if known.
pub struct AppMetadata {
    pub localized: Option<String>,
    pub unlocalized: Option<String>,
    pub app_icon_b64: Option<String>,
}

impl AppMetadata {
    /// Metadata with nothing known (the foreground window or its process
    /// could not be read).
    pub fn empty() -> (res: AppMetadata)
        ensures
            res.localized is None,
            res.unlocalized is None,
            res.app_icon_b64 is None,
    {
        AppMetadata { localized: None, unlocalized: None, app_icon_b64: None }
    }
}

/// The name shown for an application: the localized one, else the
/// unlocalized one.
pub open spec fn display_name(meta: AppMetadata) -> Option<Seq<char>> {
    match meta.localized {
        Some(s) => Some(s@),
        None => match meta.unlocalized {
            Some(s) => Some(s@),
            None => None,
        },
    }
}

/// Whether the application has a name worth reporting: its shown name has a
/// character other than whitespace.
pub fn has_valid_name(meta: &AppMetadata) -> (res: bool)
    ensures
        res == (display_name(*meta) matches Some(n) && trim_spec(n).len() > 0),
{
    let name = match &meta.localized {
        Some(s) => s,
        None => match &meta.unlocalized {
            Some(s) => s,
            None => {
                return false;
            },
        },
    };
    let trimmed = trim(name.as_str());
    trimmed.unicode_len() > 0
}

/// The foreground application is reported to friends (with the idle state)
/// only once the connection is initialized and the application has a name.
pub fn should_report_app(ws_initialized: bool, meta: &AppMetadata) -> (res: bool)
    ensures
        res == (ws_initialized && (display_name(*meta) matches Some(n) && trim_spec(n).len() > 0)),
{
    ws_initialized && has_valid_name(meta)
}

/// ASCII lower case of a character.
pub open spec fn ascii_lower(c: char) -> char {
    if 'A' <= c <= 'Z' {
        ((c as u32) + 32) as char
    } else {
        c
    }
}

/// Equality of texts ignoring ASCII case, as `str::eq_ignore_ascii_case`.
pub open spec fn eq_ignore_ascii_case_spec(a: Seq<char>, b: Seq<char>) -> bool {
    a.len() == b.len() && forall|i: int| 0 <= i < a.len() ==> ascii_lower(#[trigger] a[i]) == ascii_lower(b[i])
}

fn lower_char(c: char) -> (res: char)
    ensures
        res == ascii_lower(c),
{
    if 'A' <= c && c <= 'Z' {
        let b: u8 = (c as u32) as u8;
        ((b + 32) as char)
    } else {
        c
    }
}

/// Whether two texts are equal ignoring ASCII case.
pub fn eq_ignore_ascii_case(a: &str, b: &str) -> (res: bool)
    ensures
        res == eq_ignore_ascii_case_spec(a@, b@),
{
    let n = a.unicode_len();
    if n != b.unicode_len() {
        return false;
    }
    let mut i: usize = 0;
    while i < n
        invariant
            n == a@.len(),
            n == b@.len(),
            i <= n,
            forall|j: int| 0 <= j < i ==> ascii_lower(#[trigger] a@[j]) == ascii_lower(b@[j]),
        decreases n - i,
    {
        if lower_char(a.get_char(i)) != lower_char(b.get_char(i)) {
            return false;
        }
        i = i + 1;
    }
    true
}

/// The executable that hosts Windows Store applications.
pub const UWP_HOST_EXE: &'static str = "ApplicationFrameHost.exe";

/// Whether the executable is the Windows Store applications' host, whose
/// own name says nothing of the application.
pub fn is_uwp_host(exe_name: &str) -> (res: bool)
    ensures
        res == eq_ignore_ascii_case_spec(exe_name@, UWP_HOST_EXE@),
{
    eq_ignore_ascii_case(exe_name, UWP_HOST_EXE)
}

/// The localized and unlocalized names of an application on Windows: for a
/// Store application, the window's title and the host's name; otherwise the
/// executable's file description (or, without one, its file stem) and its
/// file stem.
pub fn windows_app_names(
    uwp: bool,
    window_title: Option<String>,
    file_description: Option<String>,
    file_stem: Option<String>,
) -> (res: (Option<String>, Option<String>))
    ensures
        uwp ==> res.0 == window_title && (res.1 matches Some(s) && s@ == "ApplicationFrameHost"@),
        !uwp ==> res.1 == file_stem && match file_description {
            Some(d) => res.0 == Some(d),
            None => match file_stem {
                Some(s) => res.0 matches Some(t) && t@ == s@,
                None => res.0 is None,
            },
        },
{
    if uwp {
        (window_title, Some(to_owned_string("ApplicationFrameHost")))
    } else {
        let localized = match file_description {
            Some(d) => Some(d),
            None => match &file_stem {
                Some(s) => Some(to_owned_string(s.as_str())),
                None => None,
            },
        };
        (localized, file_stem)
    }
}

/// The (language, code page) pairs of a version resource's translation
/// table to look the description up under, from the first `k` pairs of the
/// table: in table order, except that a pair of the user's language goes
/// ahead of those before it.
pub open spec fn translation_attempts_spec(table: Seq<u16>, system_lang: u16, k: nat) -> Seq<(u16, u16)>
    decreases k,
{
    if k == 0 {
        Seq::empty()
    } else {
        let prev = translation_attempts_spec(table, system_lang, (k - 1) as nat);
        let pair = (table[2 * (k - 1)], table[2 * (k - 1) + 1]);
        if pair.0 == system_lang {
            seq![pair] + prev
        } else {
            prev.push(pair)
        }
    }
}

/// The pairs to try, from all whole pairs of the table (an odd last entry is
/// ignored).
pub fn translation_attempts(table: &Vec<u16>, system_lang: u16) -> (res: Vec<(u16, u16)>)
    ensures
        res@ == translation_attempts_spec(table@, system_lang, table@.len() / 2),
{
    let mut attempts: Vec<(u16, u16)> = Vec::new();
    let mut i: usize = 0;
    while i + 1 < table.len()
        invariant
            i % 2 == 0,
            i <= table@.len(),
            attempts@ == translation_attempts_spec(table@, system_lang, (i / 2) as nat),
        decreases table@.len() - i,
    {
        let lang = table[i];
        let codepage = table[i + 1];
        let ghost before = attempts@;
        if lang == system_lang {
            attempts.insert(0, (lang, codepage));
            proof {
                assert(attempts@ =~= seq![(lang, codepage)] + before);
            }
        } else {
            attempts.push((lang, codepage));
        }
        proof {
            assert((i + 2) / 2 == i / 2 + 1);
            assert(2 * ((i + 2) / 2 - 1) == i);
        }
        i = i + 2;
    }
    attempts
}

/// Lower-case hexadecimal digit of a value below 16.
pub open spec fn hex_lower(v: int) -> char {
    if v < 10 {
        (0x30 + v) as char
    } else {
        (0x61 + v - 10) as char
    }
}

/// A 16-bit value as four lower-case hexadecimal digits (`{:04x}`).
pub open spec fn hex4(v: u16) -> Seq<char> {
    seq![
        hex_lower((v as int / 4096) % 16),
        hex_lower((v as int / 256) % 16),
        hex_lower((v as int / 16) % 16),
        hex_lower(v as int % 16),
    ]
}

fn hex_digit_text(v: u16) -> (res: String)
    requires
        v < 16,
    ensures
        res@ == seq![hex_lower(v as int)],
{
    let digits = "0123456789abcdef";
    proof {
        reveal_strlit("0123456789abcdef");
    }
    let res = digits.substring_char(v as usize, v as usize + 1).to_owned();
    proof {
        assert(res@ =~= seq![hex_lower(v as int)]);
    }
    res
}

fn hex4_text(v: u16) -> (res: String)
    ensures
        res@ == hex4(v),
{
    let a = hex_digit_text((v / 4096) % 16);
    let b = hex_digit_text((v / 256) % 16);
    let c = hex_digit_text((v / 16) % 16);
    let d = hex_digit_text(v % 16);
    let res = a.concat(b.as_str()).concat(c.as_str()).concat(d.as_str());
    proof {
        assert(res@ =~= hex4(v));
    }
    res
}

/// The version-resource query of the file description under a language and
/// code page: `\StringFileInfo\` then both as four hexadecimal digits, then
/// `\FileDescription`.
pub open spec fn description_query_spec(lang: u16, codepage: u16) -> Seq<char> {
    "\\StringFileInfo\\"@ + hex4(lang) + hex4(codepage) + "\\FileDescription"@
}

/// The query of the file description under a language and code page.
pub fn description_query(lang: u16, codepage: u16) -> (res: String)
    ensures
        res@ == description_query_spec(lang, codepage),
{
    let res = String::from_str("\\StringFileInfo\\").concat(hex4_text(lang).as_str()).concat(
        hex4_text(codepage).as_str(),
    ).concat("\\FileDescription");
    proof {
        assert(res@ =~= description_query_spec(lang, codepage));
    }
    res
}

/// The query tried last: US English, Unicode.
pub const FALLBACK_DESCRIPTION_QUERY: &'static str = "\\StringFileInfo\\040904b0\\FileDescription";

/// The text of each answer.
pub open spec fn answers_view(answers: Seq<Option<String>>) -> Seq<Option<Seq<char>>> {
    Seq::new(answers.len(), |i: int| opt_string_text(answers[i]))
}

/// The first non-empty description among the answers, in order.
pub open spec fn first_description(answers: Seq<Option<Seq<char>>>) -> Option<Seq<char>>
    decreases answers.len(),
{
    if answers.len() == 0 {
        None
    } else {
        match answers[0] {
            Some(d) if d.len() > 0 => Some(d),
            _ => first_description(answers.drop_first()),
        }
    }
}

/// The file description from the answers to its queries: `answers` holds what
/// the queries of `translation_attempts` gave, in their order, and `fallback`
/// what the query `FALLBACK_DESCRIPTION_QUERY` gave. The first non-empty
/// answer is the description; without one, the fallback's answer is, as it
/// is (it may be empty).
pub fn file_description(answers: Vec<Option<String>>, fallback: Option<String>) -> (res: Option<String>)
    ensures
        opt_string_text(res) == match first_description(answers_view(answers@)) {
            Some(d) => Some(d),
            None => opt_string_text(fallback),
        },
{
    let n = answers.len();
    let mut i: usize = 0;
    let ghost all = answers_view(answers@);
    assert(all.subrange(0, n as int) =~= all);
    while i < n
        invariant
            n == answers@.len(),
            i <= n,
            all == answers_view(answers@),
            first_description(all) == first_description(all.subrange(i as int, n as int)),
        decreases n - i,
    {
        let ghost rest = all.subrange(i as int, n as int);
        assert(rest.drop_first() =~= all.subrange(i + 1, n as int));
        assert(rest[0] == opt_string_text(answers@[i as int]));
        match &answers[i] {
            Some(d) => {
                if d.unicode_len() > 0 {
                    return Some(d.clone());
                }
            },
            None => {},
        }
        i = i + 1;
    }
    assert(all.subrange(n as int, n as int).len() == 0);
    fallback
}

/// The byte that lands at position `i` when each pixel's blue and red bytes
/// trade places.
pub open spec fn swapped_index(i: int) -> int {
    if i % 4 == 0 {
        i + 2
    } else if i % 4 == 2 {
        i - 2
    } else {
        i
    }
}

/// BGRA pixels in RGBA order.
pub open spec fn rgba_of_bgra(bgra: Seq<u8>) -> Seq<u8> {
    Seq::new(bgra.len(), |i: int| bgra[swapped_index(i)])
}

/// Whether a bitmap's length lets every pixel's blue and red bytes be
/// swapped: whole pixels, or a last pixel that still has its red byte.
pub open spec fn swappable_len(n: nat) -> bool {
    n % 4 == 0 || n % 4 == 3
}

/// Swaps the blue and red bytes of each pixel, turning BGRA into RGBA.
pub fn bgra_to_rgba(buffer: &mut Vec<u8>)
    requires
        swappable_len(old(buffer)@.len()),
    ensures
        final(buffer)@.len() == old(buffer)@.len(),
        final(buffer)@ == rgba_of_bgra(old(buffer)@),
{
    let ghost original = buffer@;
    let n = buffer.len();
    let mut i: usize = 0;
    while i < n
        invariant
            n == original.len(),
            swappable_len(n as nat),
            i % 4 == 0 || i == n,
            i <= n,
            buffer@.len() == n,
            forall|j: int| 0 <= j < i ==> #[trigger] buffer@[j] == original[swapped_index(j)],
            forall|j: int| i <= j < n ==> #[trigger] buffer@[j] == original[j],
        decreases n - i,
    {
        let b = buffer[i];
        let r = buffer[i + 2];
        buffer.set(i, r);
        buffer.set(i + 2, b);
        if n - i <= 4 {
            i = n;
        } else {
            i = i + 4;
        }
    }
    assert(buffer@ =~= rgba_of_bgra(original));
}

/// What `image::RgbaImage::write_to` with `ImageFormat::Png` writes for an
/// image of the given size over the given RGBA pixels.
pub uninterp spec fn png_encoding(width: u32, height: u32, rgba: Seq<u8>) -> Seq<u8>;

/// `image::RgbaImage::from_raw` over the pixels, then `write_to` as PNG into
/// memory. `from_raw` refuses a buffer with fewer than four bytes per pixel
/// (or a size that overflows); the image then holds the first
/// `4 * width * height` bytes, which is what is encoded. Writing a non-empty
/// 8-bit RGBA image as PNG into a `Vec` does not fail, so an image that was
/// made is always encoded.
#[verifier::external_body]
fn png_encode_rgba(width: u32, height: u32, pixels: Vec<u8>) -> (res: Option<Vec<u8>>)
    ensures
        pixels@.len() < 4 * (width as int) * (height as int) ==> res is None,
        width > 0 && height > 0 && 4 * (width as int) * (height as int) <= usize::MAX
            && pixels@.len() >= 4 * (width as int) * (height as int) ==> res is Some,
        res matches Some(png) ==> png@ == png_encoding(
            width,
            height,
            pixels@.take(4 * (width as int) * (height as int)),
        ),
{
    let image = image::RgbaImage::from_raw(width, height, pixels)?;
    let mut out: Vec<u8> = Vec::new();
    match image.write_to(&mut std::io::Cursor::new(&mut out), image::ImageFormat::Png) {
        Ok(()) => Some(out),
        Err(_) => None,
    }
}

/// The base64 text of a PNG icon, unless it is longer than
/// `MAX_ICON_B64_SIZE`.
pub open spec fn capped_icon(png: Seq<u8>) -> Option<Seq<char>> {
    if b64_std_encode(png).len() <= MAX_ICON_B64_SIZE {
        Some(b64_std_encode(png))
    } else {
        None
    }
}

/// The icon made from a `ICON_SIZE` square BGRA bitmap: none when the bitmap
/// is short of pixels; else its pixels in RGBA order written as PNG, as
/// capped base64.
pub open spec fn bitmap_icon(bgra: Seq<u8>) -> Option<Seq<char>> {
    if bgra.len() < 4 * 64 * 64 {
        None
    } else {
        capped_icon(png_encoding(64, 64, rgba_of_bgra(bgra).take(4 * 64 * 64int)))
    }
}

/// The text of an optional string.
pub open spec fn opt_string_text(o: Option<String>) -> Option<Seq<char>> {
    match o {
        Some(s) => Some(s@),
        None => None,
    }
}

/// The base64 text of an icon made from a `ICON_SIZE` square BGRA bitmap: the
/// colours are put in RGBA order, the bitmap is written as PNG, and an icon
/// whose text is longer than `MAX_ICON_B64_SIZE` is refused.
pub fn icon_b64_from_bgra(bgra: Vec<u8>) -> (res: Option<String>)
    requires
        swappable_len(bgra@.len()),
    ensures
        opt_string_text(res) == bitmap_icon(bgra@),
{
    let mut pixels = bgra;
    bgra_to_rgba(&mut pixels);
    match png_encode_rgba(ICON_SIZE, ICON_SIZE, pixels) {
        Some(png) => icon_b64_from_png(png.as_slice()),
        None => None,
    }
}

/// A PNG icon as base64, refused when its text is longer than
/// `MAX_ICON_B64_SIZE`.
pub fn icon_b64_from_png(png: &[u8]) -> (res: Option<String>)
    ensures
        opt_string_text(res) == capped_icon(png@),
{
    let encoded = b64_standard_encode(png);
    if encoded.unicode_len() > MAX_ICON_B64_SIZE {
        None
    } else {
        Some(encoded)
    }
}

/// Remembers a freshly made icon for its executable and hands it back.
pub fn remember_icon(cache: &mut IconCache, exe_path: &str, icon: String) -> (res: String)
    ensures
        res@ == icon@,
        final(cache)@ == put_spec(old(cache)@, exe_path@, icon@),
{
    let copy = icon.clone();
    cache.put(exe_path, icon);
    copy
}

/// What the platform gives for an application's icon: on Windows a BGRA
/// bitmap drawn at `ICON_SIZE` pixels, on macOS the PNG export of the icon.
pub enum IconSource {
    Bitmap(Vec<u8>),
    Png(Vec<u8>),
}

/// Whether the platform's icon can be handled: a bitmap's length must let
/// its pixels be swapped.
pub open spec fn icon_source_ok(source: Option<IconSource>) -> bool {
    match source {
        Some(IconSource::Bitmap(b)) => swappable_len(b@.len()),
        _ => true,
    }
}

/// The icon that the platform's source gives: none without a source or
/// from an empty PNG; the bitmap's icon; or the PNG as capped base64.
pub open spec fn source_icon(source: Option<IconSource>) -> Option<Seq<char>> {
    match source {
        None => None,
        Some(IconSource::Bitmap(b)) => bitmap_icon(b@),
        Some(IconSource::Png(p)) => if p@.len() == 0 {
            None
        } else {
            capped_icon(p@)
        },
    }
}

/// The icon of a platform's source.
pub fn icon_from_source(source: Option<IconSource>) -> (res: Option<String>)
    requires
        icon_source_ok(source),
    ensures
        opt_string_text(res) == source_icon(source),
{
    match source {
        None => None,
        Some(IconSource::Bitmap(b)) => icon_b64_from_bgra(b),
        Some(IconSource::Png(p)) => if p.len() == 0 {
            None
        } else {
            icon_b64_from_png(p.as_slice())
        },
    }
}

/// The icon of the application at `exe_path`: the cached one when there is
/// one (it becomes the most recently used); else `read_icon` is asked for the
/// platform's icon, which is made into capped base64 and, when one is made,
/// remembered for the path.
pub fn get_active_app_icon_b64<F: FnOnce() -> Option<IconSource>>(
    cache: &mut IconCache,
    exe_path: &str,
    read_icon: F,
) -> (res: Option<String>)
    requires
        call_requires(read_icon, ()),
        forall|s: Option<IconSource>| #[trigger] call_ensures(read_icon, (), s) ==> icon_source_ok(s),
    ensures
        ({
            let (after_lookup, cached) = get_spec(old(cache)@, exe_path@);
            match cached {
                Some(icon) => opt_string_text(res) == Some(icon) && final(cache)@ == after_lookup,
                None => exists|s: Option<IconSource>|
                    #[trigger] call_ensures(read_icon, (), s) && opt_string_text(res) == source_icon(s)
                        && final(cache)@ == match source_icon(s) {
                        Some(icon) => put_spec(after_lookup, exe_path@, icon),
                        None => after_lookup,
                    },
            }
        }),
{
    match cache.get(exe_path) {
        Some(icon) => Some(icon),
        None => {
            let source = read_icon();
            match icon_from_source(source) {
                Some(icon) => Some(remember_icon(cache, exe_path, icon)),
                None => None,
            }
        },
    }
}

} // verus!
