//! URL parsing and `application/x-www-form-urlencoded` serialization, through
//! the `url` and `form_urlencoded` crates.

use vstd::prelude::*;
use vstd::utf8::{decode_utf8, encode_utf8};

verus! {

/// What `url::Url::parse` makes of a string: `None` when it rejects it, else the
/// parsed URL's scheme and its serialization (`Url::as_str`).
pub uninterp spec fn url_parse_spec(input: Seq<char>) -> Option<(Seq<char>, Seq<char>)>;

/// Calls `url::Url::parse` and returns the scheme and serialization of the
/// result. The contract claims only that the outcome is a function of the
/// input: it is named by `url_parse_spec`.
#[verifier::external_body]
pub(crate) fn parse_url(input: &str) -> (res: Option<(String, String)>)
    ensures
        match res {
            Some(parts) => url_parse_spec(input@) == Some((parts.0@, parts.1@)),
            None => url_parse_spec(input@) is None,
        },
{
    match url::Url::parse(input) {
        Ok(parsed) => Some((parsed.scheme().to_string(), parsed.as_str().to_string())),
        Err(_) => None,
    }
}

/// The bytes that form-urlencoding leaves as they are.
pub open spec fn form_unchanged(b: u8) -> bool {
    b == 0x2a || b == 0x2d || b == 0x2e || (0x30 <= b <= 0x39) || (0x41 <= b <= 0x5a) || b
        == 0x5f || (0x61 <= b <= 0x7a)
}

/// Upper-case hexadecimal digit.
pub open spec fn hex_digit_upper(d: u8) -> char {
    if d < 10 {
        (0x30 + d) as char
    } else {
        (0x41 + d - 10) as char
    }
}

/// One byte form-urlencoded: kept, `+` for a space, `%XX` otherwise.
pub open spec fn form_encode_byte(b: u8) -> Seq<char> {
    if form_unchanged(b) {
        seq![b as char]
    } else if b == 0x20 {
        seq!['+']
    } else {
        seq!['%', hex_digit_upper(b / 16), hex_digit_upper(b % 16)]
    }
}

/// A byte string form-urlencoded.
pub open spec fn form_encode(bytes: Seq<u8>) -> Seq<char>
    decreases bytes.len(),
{
    if bytes.len() == 0 {
        Seq::empty()
    } else {
        form_encode_byte(bytes[0]) + form_encode(bytes.drop_first())
    }
}

/// A string form-urlencoded: its UTF-8 bytes, each encoded.
pub open spec fn form_encode_str(s: Seq<char>) -> Seq<char> {
    form_encode(encode_utf8(s))
}

/// Calls `form_urlencoded::Serializer::append_pair` on an empty target and
/// returns what `finish` hands back. As the crate's source shows, that is the
/// form-urlencoded name, `=`, and the form-urlencoded value.
#[verifier::external_body]
pub(crate) fn form_urlencoded_pair(name: &str, value: &str) -> (res: String)
    ensures
        res@ == form_encode_str(name@) + seq!['='] + form_encode_str(value@),
{
    url::form_urlencoded::Serializer::new(String::new()).append_pair(name, value).finish()
}

proof fn lemma_form_encode_v()
    ensures
        form_encode_str("v"@) == seq!['v'],
{
    reveal_strlit("v");
    let s = "v"@;
    assert(s.drop_first() =~= Seq::<char>::empty());
    assert(s[0] == 'v');
    assert(vstd::utf8::is_ascii_chars(s));
    vstd::utf8::is_ascii_chars_encode_utf8(s);
    assert(encode_utf8(s) =~= seq![0x76u8]);
    let b = seq![0x76u8];
    assert(b.drop_first() =~= Seq::<u8>::empty());
    assert(form_encode(b) =~= seq!['v']) by {
        reveal_with_fuel(form_encode, 2);
    }
}

/// A string form-urlencoded for use as a query value.
pub fn encode_query_value(value: &str) -> (res: String)
    ensures
        res@ == form_encode_str(value@),
{
    let encoded = form_urlencoded_pair("v", value);
    proof {
        lemma_form_encode_v();
        reveal_strlit("v=");
        assert(encoded@.subrange(0, 2) =~= "v="@);
    }
    if crate::text::starts_with(encoded.as_str(), "v=") {
        proof {
            reveal_strlit("v=");
        }
        let n = encoded.as_str().unicode_len();
        let rest = encoded.as_str().substring_char(2, n).to_owned();
        proof {
            assert(rest@ =~= form_encode_str(value@));
        }
        rest
    } else {
        encoded
    }
}

/// The value of a hexadecimal digit (either case).
pub open spec fn hex_value(c: char) -> int {
    if '0' <= c <= '9' {
        c as int - 0x30
    } else if 'A' <= c <= 'F' {
        c as int - 0x41 + 10
    } else {
        c as int - 0x61 + 10
    }
}

/// A hexadecimal digit (either case).
pub open spec fn is_hex_digit(c: char) -> bool {
    ('0' <= c <= '9') || ('A' <= c <= 'F') || ('a' <= c <= 'f')
}

/// Form-urldecoding of a value: `+` is a space, `%` and two hexadecimal
/// digits are the byte they spell, any other character stands for itself.
pub open spec fn form_decode(c: Seq<char>) -> Seq<u8>
    decreases c.len(),
{
    if c.len() == 0 {
        Seq::empty()
    } else if c[0] == '+' {
        seq![0x20u8] + form_decode(c.drop_first())
    } else if c[0] == '%' && c.len() >= 3 && is_hex_digit(c[1]) && is_hex_digit(c[2]) {
        seq![(hex_value(c[1]) * 16 + hex_value(c[2])) as u8] + form_decode(c.subrange(3, c.len() as int))
    } else {
        seq![c[0] as u8] + form_decode(c.drop_first())
    }
}

/// A character that would end or split a query value, or break a URL.
pub open spec fn is_query_delimiter(c: char) -> bool {
    c == '&' || c == '=' || c == ' ' || c == '#'
}

proof fn lemma_hex_digit_upper(d: u8)
    requires
        d < 16,
    ensures
        is_hex_digit(hex_digit_upper(d)),
        hex_value(hex_digit_upper(d)) == d,
        !is_query_delimiter(hex_digit_upper(d)),
{
}

proof fn lemma_form_encode_byte(b: u8, rest: Seq<char>)
    ensures
        form_decode(form_encode_byte(b) + rest) == seq![b] + form_decode(rest),
        forall|i: int|
            0 <= i < form_encode_byte(b).len() ==> !is_query_delimiter(#[trigger] form_encode_byte(b)[i]),
{
    let e = form_encode_byte(b) + rest;
    if form_unchanged(b) {
        assert(e.drop_first() =~= rest);
        assert((b as char) as u8 == b);
    } else if b == 0x20 {
        assert(e.drop_first() =~= rest);
    } else {
        lemma_hex_digit_upper(b / 16);
        lemma_hex_digit_upper(b % 16);
        assert(e.subrange(3, e.len() as int) =~= rest);
        assert((b / 16) * 16 + b % 16 == b);
    }
}

proof fn lemma_form_encode(bytes: Seq<u8>)
    ensures
        form_decode(form_encode(bytes)) == bytes,
        forall|i: int|
            0 <= i < form_encode(bytes).len() ==> !is_query_delimiter(#[trigger] form_encode(bytes)[i]),
    decreases bytes.len(),
{
    if bytes.len() > 0 {
        let head = form_encode_byte(bytes[0]);
        let tail = form_encode(bytes.drop_first());
        lemma_form_encode(bytes.drop_first());
        lemma_form_encode_byte(bytes[0], tail);
        assert(seq![bytes[0]] + bytes.drop_first() =~= bytes);
        assert forall|i: int| 0 <= i < form_encode(bytes).len() implies !is_query_delimiter(
            #[trigger] form_encode(bytes)[i],
        ) by {
            if i < head.len() {
                assert(form_encode(bytes)[i] == head[i]);
            } else {
                assert(form_encode(bytes)[i] == tail[i - head.len()]);
            }
        }
    }
}

/// A form-urlencoded query value holds no `&`, `=`, space or `#`, and
/// form-urldecoding it gives back the UTF-8 bytes of the text, hence the text.
pub proof fn lemma_query_value_round_trip(text: Seq<char>)
    ensures
        forall|i: int|
            0 <= i < form_encode_str(text).len() ==> !is_query_delimiter(
                #[trigger] form_encode_str(text)[i],
            ),
        form_decode(form_encode_str(text)) == encode_utf8(text),
        decode_utf8(form_decode(form_encode_str(text))) == text,
{
    lemma_form_encode(encode_utf8(text));
    vstd::utf8::encode_utf8_decode_utf8(text);
}

/// What parsing a string with `url::Url::parse` and reading its decoded query
/// pairs (`Url::query_pairs`) gives: the pairs in order, or the parse error's
/// message.
pub uninterp spec fn url_query_pairs_spec(input: Seq<char>) -> Result<
    Seq<(Seq<char>, Seq<char>)>,
    Seq<char>,
>;

/// The (name, value) view of a list of string pairs.
pub open spec fn pairs_view(v: Seq<(String, String)>) -> Seq<(Seq<char>, Seq<char>)> {
    Seq::new(v.len(), |i: int| (v[i].0@, v[i].1@))
}

/// Parses `input` with `url::Url::parse` and returns its decoded query pairs
/// (`query_pairs().into_owned()`), or the message of the parse error. The
/// outcome is claimed to be a function of the input, named `url_query_pairs_spec`.
#[verifier::external_body]
pub(crate) fn parse_query_pairs(input: &str) -> (res: Result<Vec<(String, String)>, String>)
    ensures
        match res {
            Ok(v) => url_query_pairs_spec(input@) == Ok::<
                Seq<(Seq<char>, Seq<char>)>,
                Seq<char>,
            >(pairs_view(v@)),
            Err(m) => url_query_pairs_spec(input@) == Err::<
                Seq<(Seq<char>, Seq<char>)>,
                Seq<char>,
            >(m@),
        },
{
    match url::Url::parse(input) {
        Ok(parsed) => Ok(parsed.query_pairs().into_owned().collect()),
        Err(e) => Err(e.to_string()),
    }
}

/// What `url::Url::parse` makes of a string, read with `Url::path`: the
/// URL's path, or the parse error's message.
pub uninterp spec fn url_path_spec(input: Seq<char>) -> Result<Seq<char>, Seq<char>>;

/// The serialization (`to_string`) of the URL parsed from `input` after
/// `set_path(path)` and `set_query(Some(query))`.
pub uninterp spec fn url_with_path_and_query_spec(
    input: Seq<char>,
    path: Seq<char>,
    query: Seq<char>,
) -> Seq<char>;

/// Parses `input` with `url::Url::parse` and returns its path, or the parse
/// error's message; the outcome is named `url_path_spec`.
#[verifier::external_body]
pub(crate) fn url_path(input: &str) -> (res: Result<String, String>)
    ensures
        match res {
            Ok(p) => url_path_spec(input@) == Ok::<Seq<char>, Seq<char>>(p@),
            Err(m) => url_path_spec(input@) == Err::<Seq<char>, Seq<char>>(m@),
        },
{
    match url::Url::parse(input) {
        Ok(parsed) => Ok(parsed.path().to_string()),
        Err(e) => Err(e.to_string()),
    }
}

/// Whether a URL rebuilt from a parsed `input` (its serialization) with a new
/// `path` and `query` stays within the `u32` offsets that `url::Url` keeps:
/// each UTF-8 byte (at most four per character) grows to at most three
/// characters when percent-encoded, with a few separators added.
pub open spec fn url_parts_fit(input_len: nat, path_len: nat, query_len: nat) -> bool {
    12 * (input_len + path_len + query_len) + 16 <= u32::MAX
}

/// Decides `url_parts_fit` on lengths in characters.
pub fn url_parts_fit_exec(input_len: usize, path_len: usize, query_len: usize) -> (res: bool)
    ensures
        res == url_parts_fit(input_len as nat, path_len as nat, query_len as nat),
{
    let limit: usize = 357_913_940;
    if input_len > limit || path_len > limit || query_len > limit {
        false
    } else {
        let total: u64 = (input_len as u64) + (path_len as u64) + (query_len as u64);
        12 * total + 16 <= 4_294_967_295u64
    }
}

/// Parses `input` with `url::Url::parse`, sets the path and the query, and
/// serializes the URL. Parsing is deterministic: where it succeeded before,
/// it succeeds again. `set_path` and `set_query` unwrap `u32` offsets into the
/// serialization, so they panic on a URL longer than `u32::MAX` bytes; the
/// lengths are bounded so that the rebuilt URL stays below that.
#[verifier::external_body]
pub(crate) fn url_with_path_and_query(input: &str, path: &str, query: &str) -> (res: Option<String>)
    requires
        url_parts_fit(input@.len(), path@.len(), query@.len()),
    ensures
        url_path_spec(input@) is Ok ==> res is Some,
        res matches Some(u) ==> u@ == url_with_path_and_query_spec(input@, path@, query@),
{
    match url::Url::parse(input) {
        Ok(mut parsed) => {
            parsed.set_path(path);
            parsed.set_query(Some(query));
            Some(parsed.to_string())
        },
        Err(_) => None,
    }
}

} // verus!
