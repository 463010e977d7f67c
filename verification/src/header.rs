//! HTTP header values and header maps, as the `http` crate keeps them.

use reqwest::header::{HeaderMap, HeaderValue, InvalidHeaderValue};
use vstd::prelude::*;
use vstd::utf8::*;

verus! {

/// `http`'s header value. Opaque here: only `header_value_bytes` speaks of it.
#[verifier::external_type_specification]
#[verifier::external_body]
pub struct ExHeaderValue(HeaderValue);

/// `http`'s error for text that cannot be a header value. It carries nothing.
#[verifier::external_type_specification]
#[verifier::external_body]
pub struct ExInvalidHeaderValue(InvalidHeaderValue);

/// `http`'s header map.
#[verifier::external_type_specification]
#[verifier::external_body]
#[verifier::reject_recursive_types(T)]
pub struct ExHeaderMap<T>(HeaderMap<T>);

/// The bytes that a header value holds, as `HeaderValue::as_bytes` gives them.
pub uninterp spec fn header_value_bytes(value: HeaderValue) -> Seq<u8>;

/// What a header map holds: each header name in it, with the bytes of the
/// value kept under that name (of the last, where a name has several).
pub uninterp spec fn header_map_entries(map: HeaderMap<HeaderValue>) -> Map<Seq<char>, Seq<u8>>;

/// A byte that may stand in a header value: anything from the space up
/// except DEL, and the horizontal tab.
pub open spec fn header_byte_allowed(b: u8) -> bool {
    (b >= 32 && b != 127) || b == 9
}

/// A character that may stand in a header value: no control character
/// other than the horizontal tab.
pub open spec fn header_char_allowed(c: char) -> bool {
    (c as u32 >= 32 && c as u32 != 127) || c as u32 == 9
}

/// Text that may be a header value: every character is allowed.
pub open spec fn header_text_allowed(text: Seq<char>) -> bool {
    forall|i: int| 0 <= i < text.len() ==> header_char_allowed(#[trigger] text[i])
}

/// Bytes that may be a header value: every byte is allowed.
pub open spec fn header_bytes_allowed(bytes: Seq<u8>) -> bool {
    forall|i: int| 0 <= i < bytes.len() ==> header_byte_allowed(#[trigger] bytes[i])
}

proof fn lemma_scalar_bytes(v: u32)
    by (bit_vector)
    requires
        v <= 0x10FFFF,
    ensures
        v <= 0x7F ==> (v & 0x7F) as u8 == v,
        (0xC0u8 | ((v >> 6) & 0x1F) as u8) >= 128,
        (0xE0u8 | ((v >> 12) & 0x0F) as u8) >= 128,
        (0xF0u8 | ((v >> 18) & 0x7) as u8) >= 128,
        (0x80u8 | (v & 0x3F) as u8) >= 128,
        (0x80u8 | ((v >> 6) & 0x3F) as u8) >= 128,
        (0x80u8 | ((v >> 12) & 0x3F) as u8) >= 128,
{
}

/// The UTF-8 bytes of one character are all allowed exactly when the
/// character is.
pub proof fn lemma_char_bytes_allowed(c: char)
    ensures
        header_bytes_allowed(encode_scalar(c as u32)) <==> header_char_allowed(c),
{
    let v = c as u32;
    lemma_scalar_bytes(v);
    let bytes = encode_scalar(v);
    if has_width_1_encoding(v) {
        assert(bytes[0] == v);
    } else {
        assert(forall|i: int| 0 <= i < bytes.len() ==> #[trigger] bytes[i] >= 128);
    }
}

/// The UTF-8 bytes of a text are all allowed exactly when each of its
/// characters is: the test that `http` makes on bytes is a test on
/// characters.
pub proof fn lemma_text_bytes_allowed(text: Seq<char>)
    ensures
        header_bytes_allowed(encode_utf8(text)) <==> header_text_allowed(text),
    decreases text.len(),
{
    if text.len() > 0 {
        let head = encode_scalar(text[0] as u32);
        let rest = text.drop_first();
        let tail = encode_utf8(rest);
        lemma_char_bytes_allowed(text[0]);
        lemma_text_bytes_allowed(rest);
        assert(encode_utf8(text) == head + tail);
        if header_bytes_allowed(head + tail) {
            assert forall|i: int| 0 <= i < head.len() implies header_byte_allowed(
                #[trigger] head[i],
            ) by {
                assert(head[i] == (head + tail)[i]);
            }
            assert forall|i: int| 0 <= i < tail.len() implies header_byte_allowed(
                #[trigger] tail[i],
            ) by {
                assert(tail[i] == (head + tail)[head.len() + i]);
            }
            assert forall|i: int| 0 <= i < text.len() implies header_char_allowed(
                #[trigger] text[i],
            ) by {
                if i > 0 {
                    assert(text[i] == rest[i - 1]);
                }
            }
        }
        if header_text_allowed(text) {
            assert forall|i: int| 0 <= i < rest.len() implies header_char_allowed(
                #[trigger] rest[i],
            ) by {
                assert(rest[i] == text[i + 1]);
            }
            assert(header_bytes_allowed(head + tail));
        }
    }
}

/// A text that holds a line feed cannot be a header value.
pub proof fn lemma_line_feed_not_allowed(text: Seq<char>)
    requires
        text.contains('\n'),
    ensures
        !header_text_allowed(text),
{
    let i = choose|i: int| 0 <= i < text.len() && text[i] == '\n';
    assert(!header_char_allowed(text[i]));
}

/// `HeaderValue::from_str` scans the UTF-8 bytes of `src` and accepts exactly
/// when each is at least 32 and not 127, or is the tab; the value it then
/// returns holds a copy of those bytes.
pub assume_specification[ HeaderValue::from_str ](src: &str) -> (r: Result<
    HeaderValue,
    InvalidHeaderValue,
>)
    ensures
        r is Ok <==> header_bytes_allowed(encode_utf8(src@)),
        r matches Ok(value) ==> header_value_bytes(value) == encode_utf8(src@),
;

/// The text that `InvalidHeaderValue` displays.
pub const INVALID_HEADER_VALUE_TEXT: &'static str = "failed to parse header value";

/// `InvalidHeaderValue`'s `Display`, through `to_string`: it writes one
/// fixed text, whatever the value was.
#[verifier::external_body]
pub(crate) fn invalid_header_value_text(cause: &InvalidHeaderValue) -> (text: String)
    ensures
        text@ == INVALID_HEADER_VALUE_TEXT@,
{
    cause.to_string()
}

/// Makes a header value of `text`, or says that it cannot be one: it can
/// exactly when it holds no control character other than the tab.
pub fn header_value(text: &str) -> (r: Result<HeaderValue, InvalidHeaderValue>)
    ensures
        r is Ok <==> header_text_allowed(text@),
        r matches Ok(value) ==> header_value_bytes(value) == encode_utf8(text@),
{
    proof {
        lemma_text_bytes_allowed(text@);
    }
    HeaderValue::from_str(text)
}

/// A header name written in lower-case letters, digits and hyphens only,
/// between one and 64 of them: the spelling that `http` keeps unchanged.
pub open spec fn plain_header_name(name: Seq<char>) -> bool {
    &&& 1 <= name.len() <= 64
    &&& forall|i: int|
        0 <= i < name.len() ==> {
            let c = #[trigger] name[i];
            ('a' <= c && c <= 'z') || ('0' <= c && c <= '9') || c == '-'
        }
}

/// The entries of a map that holds nothing.
pub open spec fn no_headers() -> Map<Seq<char>, Seq<u8>> {
    Map::empty()
}

/// A number of names far below the point where a header map can grow no
/// more. `http` refuses to grow a map's table past 32768 slots, and asks for
/// that only once the map holds several thousand names.
pub const HEADER_MAP_ROOM: usize = 1024;

/// `HeaderMap::new` returns a map without entries.
#[verifier::external_body]
pub(crate) fn empty_header_map() -> (headers: HeaderMap<HeaderValue>)
    ensures
        header_map_entries(headers) == no_headers(),
{
    HeaderMap::new()
}

/// `HeaderMap::insert` with a static name: afterwards the name stands for
/// the new value alone, and every other entry is as before. The name must be
/// plain, since `insert` panics on a static name that is no header name, and
/// the map must hold fewer than `HEADER_MAP_ROOM` names, since `insert`
/// panics where the table would have to grow past its limit.
#[verifier::external_body]
pub(crate) fn insert_header(map: &mut HeaderMap<HeaderValue>, name: &'static str, value: HeaderValue)
    requires
        plain_header_name(name@),
        header_map_entries(*old(map)).dom().finite(),
        header_map_entries(*old(map)).dom().len() < HEADER_MAP_ROOM,
    ensures
        header_map_entries(*final(map)) == header_map_entries(*old(map)).insert(
            name@,
            header_value_bytes(value),
        ),
{
    map.insert(name, value);
}

} // verus!
