//! How the credential is kept in the system keyring: its JSON is gzip-compressed
//! and base64-encoded (URL-safe alphabet, no padding); where the keyring limits
//! the size of an entry, the text is split into numbered chunks.

use vstd::prelude::*;
use vstd::utf8::{decode_utf8, encode_utf8, valid_utf8};

use base64::Engine;
use std::io::{Read, Write};

use crate::auth::AuthError;
use crate::auth_flow::decimal_spec;

verus! {

/// Keyring service name under which the credential is stored.
pub const SERVICE_NAME: &'static str = "friendolls";

/// Keyring entry of the credential where it fits in one entry.
pub const AUTH_PASS_ENTRY: &'static str = "auth_pass";

/// Keyring entry holding the number of chunks where the credential is split.
pub const AUTH_PASS_COUNT_ENTRY: &'static str = "auth_pass_count";

/// Size of one chunk where the credential is split.
pub const CHUNK_SIZE: usize = 1200;

/// The URL-safe base64 alphabet.
pub open spec fn b64_char(v: int) -> char {
    if v < 26 {
        (0x41 + v) as char
    } else if v < 52 {
        (0x61 + v - 26) as char
    } else if v < 62 {
        (0x30 + v - 52) as char
    } else if v == 62 {
        '-'
    } else {
        '_'
    }
}

/// Base64 with the URL-safe alphabet and without padding: each group of three
/// bytes gives four characters; a final one or two bytes give two or three.
pub open spec fn b64_encode(b: Seq<u8>) -> Seq<char>
    decreases b.len(),
{
    if b.len() == 0 {
        Seq::empty()
    } else if b.len() == 1 {
        seq![b64_char((b[0] as int) / 4), b64_char(((b[0] as int) % 4) * 16)]
    } else if b.len() == 2 {
        seq![
            b64_char((b[0] as int) / 4),
            b64_char(((b[0] as int) % 4) * 16 + (b[1] as int) / 16),
            b64_char(((b[1] as int) % 16) * 4),
        ]
    } else {
        seq![
            b64_char((b[0] as int) / 4),
            b64_char(((b[0] as int) % 4) * 16 + (b[1] as int) / 16),
            b64_char(((b[1] as int) % 16) * 4 + (b[2] as int) / 64),
            b64_char((b[2] as int) % 64),
        ] + b64_encode(b.subrange(3, b.len() as int))
    }
}

/// Every character of the URL-safe alphabet is ASCII.
proof fn lemma_b64_char_ascii(v: int)
    requires
        0 <= v < 64,
    ensures
        '\0' <= b64_char(v) <= '\u{7f}',
{
}

/// URL-safe base64 text is ASCII.
pub proof fn lemma_b64_ascii(b: Seq<u8>)
    ensures
        vstd::utf8::is_ascii_chars(b64_encode(b)),
    decreases b.len(),
{
    let e = b64_encode(b);
    if b.len() == 1 {
        lemma_b64_char_ascii((b[0] as int) / 4);
        lemma_b64_char_ascii(((b[0] as int) % 4) * 16);
    } else if b.len() == 2 {
        lemma_b64_char_ascii((b[0] as int) / 4);
        lemma_b64_char_ascii(((b[0] as int) % 4) * 16 + (b[1] as int) / 16);
        lemma_b64_char_ascii(((b[1] as int) % 16) * 4);
    } else if b.len() >= 3 {
        lemma_b64_char_ascii((b[0] as int) / 4);
        lemma_b64_char_ascii(((b[0] as int) % 4) * 16 + (b[1] as int) / 16);
        lemma_b64_char_ascii(((b[1] as int) % 16) * 4 + (b[2] as int) / 64);
        lemma_b64_char_ascii((b[2] as int) % 64);
        lemma_b64_ascii(b.subrange(3, b.len() as int));
        assert forall|i: int| 0 <= i < e.len() implies '\0' <= #[trigger] e[i] <= '\u{7f}' by {
            if i >= 4 {
                assert(e[i] == b64_encode(b.subrange(3, b.len() as int))[i - 4]);
            }
        }
    }
}

proof fn lemma_b64_char_injective(x: int, y: int)
    requires
        0 <= x < 64,
        0 <= y < 64,
        b64_char(x) == b64_char(y),
    ensures
        x == y,
{
}

proof fn lemma_b64_len(b: Seq<u8>)
    ensures
        b64_encode(b).len() == 4 * (b.len() / 3) + if b.len() % 3 == 0 {
            0int
        } else {
            (b.len() % 3 + 1) as int
        },
    decreases b.len(),
{
    if b.len() >= 3 {
        lemma_b64_len(b.subrange(3, b.len() as int));
    }
}

/// Different byte strings have different encodings.
pub proof fn lemma_b64_injective(a: Seq<u8>, b: Seq<u8>)
    requires
        b64_encode(a) == b64_encode(b),
    ensures
        a == b,
    decreases a.len(),
{
    lemma_b64_len(a);
    lemma_b64_len(b);
    assert(a.len() == b.len());
    let ea = b64_encode(a);
    let eb = b64_encode(b);
    if a.len() == 0 {
        assert(a =~= b);
    } else {
        assert(ea[0] == eb[0]);
        assert(ea[1] == eb[1]);
        lemma_b64_char_injective((a[0] as int) / 4, (b[0] as int) / 4);
        if a.len() == 1 {
            lemma_b64_char_injective(((a[0] as int) % 4) * 16, ((b[0] as int) % 4) * 16);
            assert(a[0] == b[0]);
            assert(a =~= b);
        } else {
            lemma_b64_char_injective(((a[0] as int) % 4) * 16 + (a[1] as int) / 16, ((b[0] as int) % 4) * 16 + (b[1] as int) / 16);
            assert(ea[2] == eb[2]);
            assert(a[0] == b[0]);
            if a.len() == 2 {
                lemma_b64_char_injective(((a[1] as int) % 16) * 4, ((b[1] as int) % 16) * 4);
                assert(a[1] == b[1]);
                assert(a =~= b);
            } else {
                lemma_b64_char_injective(((a[1] as int) % 16) * 4 + (a[2] as int) / 64, ((b[1] as int) % 16) * 4 + (b[2] as int) / 64);
                assert(ea[3] == eb[3]);
                lemma_b64_char_injective((a[2] as int) % 64, (b[2] as int) % 64);
                assert(a[1] == b[1]);
                assert(a[2] == b[2]);
                let ra = a.subrange(3, a.len() as int);
                let rb = b.subrange(3, b.len() as int);
                assert(b64_encode(ra) =~= ea.subrange(4, ea.len() as int));
                assert(b64_encode(rb) =~= eb.subrange(4, eb.len() as int));
                lemma_b64_injective(ra, rb);
                assert forall|i: int| 0 <= i < a.len() implies a[i] == b[i] by {
                    if i >= 3 {
                        assert(a[i] == ra[i - 3]);
                        assert(b[i] == rb[i - 3]);
                    }
                }
                assert(a =~= b);
            }
        }
    }
}

/// Calls `base64::engine::general_purpose::URL_SAFE_NO_PAD.encode`, which gives
/// the URL-safe, unpadded base64 of the bytes.
#[verifier::external_body]
fn b64_url_nopad_encode(bytes: &[u8]) -> (res: String)
    ensures
        res@ == b64_encode(bytes@),
{
    base64::engine::general_purpose::URL_SAFE_NO_PAD.encode(bytes)
}

/// Calls `URL_SAFE_NO_PAD.decode`. That engine accepts exactly the canonical
/// unpadded encodings (no padding, no non-zero trailing bits), so it succeeds
/// on a text if and only if the text is the encoding of some bytes, and then
/// returns those bytes.
#[verifier::external_body]
fn b64_url_nopad_decode(text: &str) -> (res: Option<Vec<u8>>)
    ensures
        match res {
            Some(v) => b64_encode(v@) == text@,
            None => forall|b: Seq<u8>| b64_encode(b) != text@,
        },
{
    base64::engine::general_purpose::URL_SAFE_NO_PAD.decode(text).ok()
}

/// The text of an optional string.
pub open spec fn opt_string_view(o: Option<String>) -> Option<Seq<char>> {
    match o {
        Some(s) => Some(s@),
        None => None,
    }
}

/// What `flate2`'s `GzEncoder` at `Compression::best()` writes for the given data.
pub uninterp spec fn gzip_best_spec(data: Seq<u8>) -> Seq<u8>;

/// What reading a `flate2::read::GzDecoder` over the given bytes to a string
/// gives: the decompressed text, or `None` when the bytes are not gzip data or
/// do not decompress to UTF-8.
pub uninterp spec fn gunzip_utf8_spec(data: Seq<u8>) -> Option<Seq<char>>;

/// Compresses with `flate2::write::GzEncoder` at `Compression::best()`
/// (`write_all`, then `finish`). What it writes is named by `gzip_best_spec`.
/// The encoder fails only when its inner writer does; it writes into a `Vec`,
/// which appends without failing, so the compression always succeeds.
#[verifier::external_body]
fn gzip_best(data: &[u8]) -> (res: Option<Vec<u8>>)
    ensures
        res is Some,
        res matches Some(v) ==> v@ == gzip_best_spec(data@),
{
    let mut encoder = flate2::write::GzEncoder::new(Vec::new(), flate2::Compression::best());
    match encoder.write_all(data) {
        Ok(()) => encoder.finish().ok(),
        Err(_) => None,
    }
}

/// Decompresses with `flate2::read::GzDecoder` and `read_to_string`. Gzip is
/// lossless: the compressed form of UTF-8 text decompresses to that text.
#[verifier::external_body]
fn gunzip_utf8(data: &[u8]) -> (res: Option<String>)
    ensures
        match res {
            Some(s) => gunzip_utf8_spec(data@) == Some(s@),
            None => gunzip_utf8_spec(data@) is None,
        },
        forall|d: Seq<u8>|
            data@ == gzip_best_spec(d) && valid_utf8(d) ==> opt_string_view(res) == Some(
                decode_utf8(d),
            ),
{
    let mut decoder = flate2::read::GzDecoder::new(data);
    let mut text = String::new();
    match decoder.read_to_string(&mut text) {
        Ok(_) => Some(text),
        Err(_) => None,
    }
}

/// The stored form of a credential's JSON.
pub open spec fn encoded_auth_json(json: Seq<char>) -> Seq<char> {
    b64_encode(gzip_best_spec(encode_utf8(json)))
}

/// The JSON that a stored form holds, if it is one.
pub open spec fn decoded_auth_json(text: Seq<char>) -> Option<Seq<char>> {
    if exists|b: Seq<u8>| b64_encode(b) == text {
        gunzip_utf8_spec(choose|b: Seq<u8>| b64_encode(b) == text)
    } else {
        None
    }
}

/// The stored form of a credential's JSON: gzip-compressed, then base64. It
/// is always made, and it is ASCII text.
pub fn encode_auth_pass_json(json: &str) -> (res: Result<String, AuthError>)
    ensures
        res is Ok,
        res matches Ok(s) ==> s@ == encoded_auth_json(json@) && vstd::utf8::is_ascii_chars(s@),
{
    match gzip_best(json.as_bytes()) {
        Some(compressed) => {
            let encoded = b64_url_nopad_encode(compressed.as_slice());
            proof {
                lemma_b64_ascii(compressed@);
            }
            Ok(encoded)
        },
        None => Err(AuthError::SerializationError(String::from_str("failed to compress auth pass"))),
    }
}

/// The credential's JSON from its stored form; `None` when the text is not
/// base64 of gzip-compressed UTF-8. What was stored is read back unchanged.
pub fn decode_auth_pass_json(encoded: &str) -> (res: Option<String>)
    ensures
        match res {
            Some(s) => decoded_auth_json(encoded@) == Some(s@),
            None => decoded_auth_json(encoded@) is None,
        },
        forall|json: Seq<char>|
            encoded@ == #[trigger] encoded_auth_json(json) ==> (res matches Some(s) && s@ == json),
{
    let compressed = match b64_url_nopad_decode(encoded) {
        Some(c) => c,
        None => {
            return None;
        },
    };
    proof {
        let b = choose|b: Seq<u8>| b64_encode(b) == encoded@;
        lemma_b64_injective(b, compressed@);
    }
    let res = gunzip_utf8(compressed.as_slice());
    proof {
        assert forall|json: Seq<char>| encoded@ == #[trigger] encoded_auth_json(json) implies (
        res matches Some(s) && s@ == json) by {
            let d = encode_utf8(json);
            lemma_b64_injective(gzip_best_spec(d), compressed@);
            vstd::utf8::encode_utf8_valid_utf8(json);
            vstd::utf8::encode_utf8_decode_utf8(json);
        }
    }
    res
}

/// The concatenation of a list of texts.
pub open spec fn concat_all(parts: Seq<Seq<char>>) -> Seq<char>
    decreases parts.len(),
{
    if parts.len() == 0 {
        Seq::empty()
    } else {
        concat_all(parts.drop_last()) + parts.last()
    }
}

/// The texts of a list of strings.
pub open spec fn strings_view(v: Seq<String>) -> Seq<Seq<char>> {
    Seq::new(v.len(), |i: int| v[i]@)
}

/// Splits an ASCII text into chunks of `chunk_size` characters (the last may be
/// shorter); the chunks put back together give the text.
pub fn chunk_encoded(encoded: &str, chunk_size: usize) -> (res: Vec<String>)
    requires
        chunk_size > 0,
        encoded.is_ascii(),
    ensures
        concat_all(strings_view(res@)) == encoded@,
        forall|i: int| 0 <= i < res@.len() ==> 0 < #[trigger] res@[i]@.len() <= chunk_size,
        forall|i: int| 0 <= i < res@.len() - 1 ==> #[trigger] res@[i]@.len() == chunk_size,
{
    let n = encoded.unicode_len();
    let mut chunks: Vec<String> = Vec::new();
    let mut pos: usize = 0;
    while pos < n
        invariant
            n == encoded@.len(),
            encoded.is_ascii(),
            chunk_size > 0,
            pos <= n,
            concat_all(strings_view(chunks@)) == encoded@.subrange(0, pos as int),
            forall|i: int| 0 <= i < chunks@.len() ==> 0 < #[trigger] chunks@[i]@.len() <= chunk_size,
            forall|i: int|
                0 <= i < chunks@.len() ==> #[trigger] chunks@[i]@.len() == chunk_size || (i
                    == chunks@.len() - 1 && pos == n),
        decreases n - pos,
    {
        let end = if n - pos > chunk_size {
            pos + chunk_size
        } else {
            n
        };
        let ghost before = chunks@;
        let piece = encoded.substring_ascii(pos, end).to_owned();
        chunks.push(piece);
        proof {
            let sv = strings_view(chunks@);
            assert(sv.drop_last() =~= strings_view(before));
            assert(sv.last() == encoded@.subrange(pos as int, end as int));
            assert(encoded@.subrange(0, end as int) =~= encoded@.subrange(0, pos as int)
                + encoded@.subrange(pos as int, end as int));
            assert forall|i: int| 0 <= i < chunks@.len() implies 0 < #[trigger] chunks@[i]@.len()
                <= chunk_size && (chunks@[i]@.len() == chunk_size || (i == chunks@.len() - 1 && end
                == n)) by {
                if i < before.len() {
                    assert(chunks@[i] == before[i]);
                }
            }
        }
        pos = end;
    }
    proof {
        assert(encoded@.subrange(0, n as int) =~= encoded@);
    }
    chunks
}

/// The chunks put back together.
pub fn join_chunks(chunks: &Vec<String>) -> (res: String)
    ensures
        res@ == concat_all(strings_view(chunks@)),
{
    let mut res = String::new();
    let mut i: usize = 0;
    while i < chunks.len()
        invariant
            i <= chunks@.len(),
            res@ == concat_all(strings_view(chunks@).subrange(0, i as int)),
        decreases chunks@.len() - i,
    {
        proof {
            let sv = strings_view(chunks@);
            assert(sv.subrange(0, i + 1).drop_last() =~= sv.subrange(0, i as int));
        }
        res.append(chunks[i].as_str());
        i = i + 1;
    }
    proof {
        assert(strings_view(chunks@).subrange(0, chunks@.len() as int) =~= strings_view(chunks@));
    }
    res
}

/// Keyring entry of the `index`-th chunk.
pub fn chunk_entry_name(index: usize) -> (res: String)
    ensures
        res@ == "auth_pass_"@ + decimal_spec(index as nat),
{
    String::from_str("auth_pass_").concat(crate::auth_flow::decimal(index).as_str())
}

/// Value of a string of decimal digits.
pub open spec fn digits_value(s: Seq<char>) -> nat
    decreases s.len(),
{
    if s.len() == 0 {
        0
    } else {
        digits_value(s.drop_last()) * 10 + (s.last() as nat - 0x30) as nat
    }
}

/// An ASCII decimal digit.
pub open spec fn is_digit(c: char) -> bool {
    '0' <= c <= '9'
}

/// The text after an optional leading `+`.
pub open spec fn unsigned_digits(s: Seq<char>) -> Seq<char> {
    if s.len() > 0 && s[0] == '+' {
        s.drop_first()
    } else {
        s
    }
}

/// Whether every character is a decimal digit.
pub open spec fn all_digits(d: Seq<char>) -> bool {
    forall|i: int| 0 <= i < d.len() ==> is_digit(#[trigger] d[i])
}

/// What `str::parse::<usize>` accepts: an optional `+`, then one or more
/// decimal digits whose value fits in a `usize`.
pub open spec fn parse_usize_spec(s: Seq<char>) -> Option<nat> {
    let digits = unsigned_digits(s);
    if digits.len() == 0 || !all_digits(digits) {
        None
    } else if digits_value(digits) > usize::MAX {
        None
    } else {
        Some(digits_value(digits))
    }
}

proof fn lemma_digits_value_monotone(s: Seq<char>, k: int)
    requires
        0 <= k <= s.len(),
        forall|i: int| 0 <= i < s.len() ==> is_digit(#[trigger] s[i]),
    ensures
        digits_value(s.subrange(0, k)) <= digits_value(s),
    decreases s.len() - k,
{
    if k < s.len() {
        lemma_digits_value_monotone(s, k + 1);
        let t = s.subrange(0, k + 1);
        assert(t.drop_last() =~= s.subrange(0, k));
        assert(is_digit(t.last()));
    } else {
        assert(s.subrange(0, k) =~= s);
    }
}

/// Reads a chunk count as `str::parse::<usize>` does.
pub fn parse_chunk_count(s: &str) -> (res: Option<usize>)
    ensures
        match res {
            Some(n) => parse_usize_spec(s@) == Some(n as nat),
            None => parse_usize_spec(s@) is None,
        },
{
    let n = s.unicode_len();
    let start: usize = if n > 0 && s.get_char(0) == '+' {
        1
    } else {
        0
    };
    let ghost digits = unsigned_digits(s@);
    proof {
        assert(digits =~= s@.subrange(start as int, n as int));
    }
    if start == n {
        return None;
    }
    let mut value: usize = 0;
    let mut i: usize = start;
    while i < n
        invariant
            n == s@.len(),
            start <= i <= n,
            start < n,
            digits == s@.subrange(start as int, n as int),
            digits == unsigned_digits(s@),
            forall|j: int| 0 <= j < i - start ==> is_digit(#[trigger] digits[j]),
            value as nat == digits_value(digits.subrange(0, i - start)),
        decreases n - i,
    {
        let c = s.get_char(i);
        proof {
            assert(c == digits[i - start]);
        }
        if c < '0' || c > '9' {
            proof {
                assert(!is_digit(digits[i - start]));
                assert(!all_digits(digits));
            }
            return None;
        }
        let d = (c as u32 - 0x30) as usize;
        proof {
            let t = digits.subrange(0, i - start + 1);
            assert(t.drop_last() =~= digits.subrange(0, i - start));
            assert(t.last() == c);
        }
        if value > (usize::MAX - d) / 10 {
            proof {
                let t = digits.subrange(0, i - start + 1);
                assert(digits_value(t) == value * 10 + d);
                assert(digits_value(t) > usize::MAX) by (nonlinear_arith)
                    requires
                        value > (usize::MAX - d) / 10,
                        digits_value(t) == value * 10 + d,
                        d <= 9,
                ;
                let k = i - start + 1;
                if all_digits(digits) {
                    lemma_digits_value_monotone(digits, k);
                }
            }
            return None;
        }
        value = value * 10 + d;
        i = i + 1;
    }
    proof {
        assert(digits.subrange(0, n - start) =~= digits);
    }
    Some(value)
}

} // verus!
