//! Percent-encoding of path segments and `application/x-www-form-urlencoded`
//! serialisation of query pairs.
//!
//! The work is done by the `url` crate. This module states, byte by byte,
//! what that crate produces, and proves what the rest of the library needs
//! from it: an encoded path segment never holds a character that would
//! split the path, and plain decimal text passes through unchanged.

use vstd::prelude::*;
use vstd::utf8::*;

verus! {

/// The upper-case hexadecimal digit for a value below sixteen.
pub open spec fn hex_upper(nibble: u8) -> char {
    if nibble < 10 {
        ((0x30 + nibble) as u8) as char
    } else {
        ((0x37 + nibble) as u8) as char
    }
}

/// The three characters `%XY` that stand for one byte.
pub open spec fn percent_encoded_byte(byte: u8) -> Seq<char> {
    seq!['%', hex_upper(byte / 16), hex_upper(byte % 16)]
}

/// The bytes that may not appear as themselves in one segment of a path:
/// controls, everything beyond `~`, and
/// space `"` `#` `<` `>` `` ` `` `?` `{` `}` `%` `/`.
pub open spec fn in_path_segment_set(byte: u8) -> bool {
    ||| byte < 0x20
    ||| byte > 0x7E
    ||| byte == 0x20
    ||| byte == 0x22
    ||| byte == 0x23
    ||| byte == 0x3C
    ||| byte == 0x3E
    ||| byte == 0x60
    ||| byte == 0x3F
    ||| byte == 0x7B
    ||| byte == 0x7D
    ||| byte == 0x25
    ||| byte == 0x2F
}

/// What one byte becomes inside a path segment.
pub open spec fn path_segment_byte(byte: u8) -> Seq<char> {
    if in_path_segment_set(byte) {
        percent_encoded_byte(byte)
    } else {
        seq![byte as char]
    }
}

/// The percent-encoding of a byte string for use as one path segment.
pub open spec fn path_segment_bytes(bytes: Seq<u8>) -> Seq<char>
    decreases bytes.len(),
{
    if bytes.len() == 0 {
        Seq::empty()
    } else {
        path_segment_bytes(bytes.drop_last()) + path_segment_byte(bytes.last())
    }
}

/// The percent-encoding of a text, taken as UTF-8, for use as one path
/// segment.
pub open spec fn path_segment(text: Seq<char>) -> Seq<char> {
    path_segment_bytes(encode_utf8(text))
}

/// The bytes that the form serialiser leaves as they are:
/// `*` `-` `.` `_`, digits and ASCII letters.
pub open spec fn form_unchanged(byte: u8) -> bool {
    ||| byte == 0x2A
    ||| byte == 0x2D
    ||| byte == 0x2E
    ||| byte == 0x5F
    ||| 0x30 <= byte <= 0x39
    ||| 0x41 <= byte <= 0x5A
    ||| 0x61 <= byte <= 0x7A
}

/// What one byte becomes in a form-encoded name or value.
pub open spec fn form_byte(byte: u8) -> Seq<char> {
    if form_unchanged(byte) {
        seq![byte as char]
    } else if byte == 0x20 {
        seq!['+']
    } else {
        percent_encoded_byte(byte)
    }
}

/// The form encoding of a byte string.
pub open spec fn form_bytes(bytes: Seq<u8>) -> Seq<char>
    decreases bytes.len(),
{
    if bytes.len() == 0 {
        Seq::empty()
    } else {
        form_bytes(bytes.drop_last()) + form_byte(bytes.last())
    }
}

/// The form encoding of a text, taken as UTF-8.
pub open spec fn form_text(text: Seq<char>) -> Seq<char> {
    form_bytes(encode_utf8(text))
}

/// A query string after one more `name=value` pair: pairs are joined by
/// `&`, and the first pair has nothing before it.
pub open spec fn pair_appended(query: Seq<char>, name: Seq<char>, value: Seq<char>) -> Seq<char> {
    let joined = if query.len() > 0 {
        query.push('&')
    } else {
        query
    };
    joined + form_text(name) + seq!['='] + form_text(value)
}

/// The characters that both encodings copy: `*` `-` `.` `_`, digits and
/// ASCII letters.
pub open spec fn is_unreserved(c: char) -> bool {
    ||| c == '*'
    ||| c == '-'
    ||| c == '.'
    ||| c == '_'
    ||| '0' <= c <= '9'
    ||| 'A' <= c <= 'Z'
    ||| 'a' <= c <= 'z'
}

/// The characters that end a path segment or the path itself.
pub open spec fn is_path_delimiter(c: char) -> bool {
    c == '/' || c == '?' || c == '#'
}

/// True when no character of `text` is a path delimiter.
pub open spec fn free_of_delimiters(text: Seq<char>) -> bool {
    forall|i: int| 0 <= i < text.len() ==> !is_path_delimiter(#[trigger] text[i])
}

proof fn lemma_path_segment_byte_is_safe(byte: u8)
    ensures
        free_of_delimiters(path_segment_byte(byte)),
{
    let piece = path_segment_byte(byte);
    assert forall|i: int| 0 <= i < piece.len() implies !is_path_delimiter(#[trigger] piece[i]) by {
        if in_path_segment_set(byte) {
            assert(piece[0] == '%');
            assert(piece[1] == hex_upper(byte / 16));
            assert(piece[2] == hex_upper(byte % 16));
        } else {
            assert(piece[0] == byte as char);
        }
    }
}

proof fn lemma_path_segment_bytes_are_safe(bytes: Seq<u8>)
    ensures
        free_of_delimiters(path_segment_bytes(bytes)),
    decreases bytes.len(),
{
    if bytes.len() > 0 {
        lemma_path_segment_bytes_are_safe(bytes.drop_last());
        lemma_path_segment_byte_is_safe(bytes.last());
    }
}

/// An encoded path segment holds no `/`, `?` or `#`, whatever the text was:
/// a parameter value cannot add a segment to the path, nor end it.
pub proof fn lemma_path_segment_is_free_of_delimiters(text: Seq<char>)
    ensures
        free_of_delimiters(path_segment(text)),
{
    lemma_path_segment_bytes_are_safe(encode_utf8(text));
}

proof fn lemma_copied_bytes(bytes: Seq<u8>)
    requires
        forall|i: int| 0 <= i < bytes.len() ==> form_unchanged(#[trigger] bytes[i]),
    ensures
        path_segment_bytes(bytes) =~= bytes.map_values(|b: u8| b as char),
        form_bytes(bytes) =~= bytes.map_values(|b: u8| b as char),
    decreases bytes.len(),
{
    if bytes.len() > 0 {
        lemma_copied_bytes(bytes.drop_last());
        assert(form_unchanged(bytes.last()));
    }
}

/// Text made of unreserved characters only is its own encoding, as a path
/// segment and as a form name or value.
pub proof fn lemma_unreserved_text_is_unchanged(text: Seq<char>)
    requires
        forall|i: int| 0 <= i < text.len() ==> is_unreserved(#[trigger] text[i]),
    ensures
        path_segment(text) == text,
        form_text(text) == text,
{
    assert(is_ascii_chars(text)) by {
        assert forall|i: int| 0 <= i < text.len() implies '\0' <= #[trigger] text[i] <= '\u{7f}' by {
            assert(is_unreserved(text[i]));
        }
    }
    is_ascii_chars_encode_utf8(text);
    let bytes = encode_utf8(text);
    assert forall|i: int| 0 <= i < bytes.len() implies form_unchanged(#[trigger] bytes[i]) by {
        assert(is_unreserved(text[i]));
        assert(bytes[i] == text[i] as u8);
    }
    lemma_copied_bytes(bytes);
    assert forall|i: int| 0 <= i < text.len() implies bytes.map_values(|b: u8| b as char)[i]
        == text[i] by {
        assert(is_unreserved(text[i]));
        assert(bytes[i] == text[i] as u8);
    }
    assert(bytes.map_values(|b: u8| b as char) =~= text);
}

/// Percent-encodes `value` for use as one segment of a path.
///
/// Calls `url::percent_encoding::utf8_percent_encode` with
/// `PATH_SEGMENT_ENCODE_SET` and collects the pieces. The contract restates
/// that encoder: each UTF-8 byte of `value` in the set is written as `%` and
/// two upper-case hexadecimal digits, every other byte is copied. It is
/// taken on trust.
#[verifier::external_body]
pub(crate) fn encode_path_segment(value: &str) -> (encoded: String)
    ensures
        encoded@ == path_segment(value@),
{
    url::percent_encoding::utf8_percent_encode(
        value,
        url::percent_encoding::PATH_SEGMENT_ENCODE_SET,
    ).collect()
}

/// Appends the pair `name=value` to a query string.
///
/// Calls `url::form_urlencoded::Serializer::new` on `query`, then
/// `append_pair` and `finish`. The contract restates what the serialiser
/// does with a `String` target and no encoding override: it writes `&` if
/// the target is not empty, then the form encoding of the UTF-8 bytes of
/// `name`, `=`, and the form encoding of those of `value`. It is taken on
/// trust.
#[verifier::external_body]
pub(crate) fn append_query_pair(query: String, name: &str, value: &str) -> (extended: String)
    ensures
        extended@ == pair_appended(query@, name@, value@),
{
    url::form_urlencoded::Serializer::new(query).append_pair(name, value).finish()
}

} // verus!
