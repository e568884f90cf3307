//! The headers of an HTTP message, kept in the header map of the `http` crate.

use vstd::multiset::Multiset;
use vstd::prelude::*;
use vstd::utf8::encode_utf8;

verus! {

/// `http::HeaderMap`: a multimap from header names to header values.
#[verifier::external_type_specification]
#[verifier::external_body]
#[verifier::reject_recursive_types(T)]
pub struct ExHeaderMap<T>(http::HeaderMap<T>);

/// `http::HeaderValue`: the bytes of one header value.
#[verifier::external_type_specification]
#[verifier::external_body]
pub struct ExHeaderValue(http::HeaderValue);

/// A header: its name in lower case and the bytes of its value.
pub type Header = (Seq<char>, Seq<u8>);

/// What a header map holds: each pair of a name and a value as often as it
/// was put in.
pub uninterp spec fn header_entries(map: http::HeaderMap) -> Multiset<Header>;

/// The headers of a map in the order in which the map hands them out.
pub uninterp spec fn header_order(map: http::HeaderMap) -> Seq<Header>;

/// The characters of which HTTP tokens are made.
pub open spec fn is_tchar(c: char) -> bool {
    ||| 'a' <= c <= 'z'
    ||| 'A' <= c <= 'Z'
    ||| '0' <= c <= '9'
    ||| c == '!'
    ||| c == '#'
    ||| c == '$'
    ||| c == '%'
    ||| c == '&'
    ||| c == '\''
    ||| c == '*'
    ||| c == '+'
    ||| c == '-'
    ||| c == '.'
    ||| c == '^'
    ||| c == '_'
    ||| c == '`'
    ||| c == '|'
    ||| c == '~'
}

/// An HTTP token: one character or more, each of them a token character.
pub open spec fn is_token(text: Seq<char>) -> bool {
    &&& text.len() > 0
    &&& forall|i: int| 0 <= i < text.len() ==> is_tchar(#[trigger] text[i])
}

/// The longest header name, in bytes.
pub const MAX_HEADER_NAME_LEN: usize = 65535;

/// A text that can name a header: a token of bounded length.
pub open spec fn is_header_name(text: Seq<char>) -> bool {
    is_token(text) && text.len() <= MAX_HEADER_NAME_LEN
}

/// The lower-case form of an ASCII letter; any other character is itself.
pub open spec fn lower_char(c: char) -> char {
    if 'A' <= c <= 'Z' {
        ((c as u8) + 32) as char
    } else {
        c
    }
}

/// A text with its ASCII capitals in lower case.
pub open spec fn ascii_lower(text: Seq<char>) -> Seq<char> {
    text.map_values(|c: char| lower_char(c))
}

/// A header name as the header map keeps it.
pub open spec fn is_lower_header_name(text: Seq<char>) -> bool {
    is_header_name(text) && ascii_lower(text) == text
}

/// A text that can be the value of a header: no control character in it but
/// the tabulator.
pub open spec fn is_header_value(text: Seq<char>) -> bool {
    forall|i: int| 0 <= i < text.len() ==> is_value_char(#[trigger] text[i])
}

/// The characters of header values.
pub open spec fn is_value_char(c: char) -> bool {
    c == '\t' || (' ' <= c && c != '\x7f')
}

/// A header of the wire as the header map keeps it.
pub open spec fn header_of_texts(pair: (Seq<char>, Seq<char>)) -> Header {
    (ascii_lower(pair.0), encode_utf8(pair.1))
}

/// Whether every pair of texts can be a header.
pub open spec fn are_headers(pairs: Seq<(Seq<char>, Seq<char>)>) -> bool {
    forall|i: int|
        0 <= i < pairs.len() ==> is_header_name((#[trigger] pairs[i]).0) && is_header_value(
            pairs[i].1,
        )
}

/// The headers that pairs of texts stand for.
pub open spec fn headers_of_texts(pairs: Seq<(Seq<char>, Seq<char>)>) -> Multiset<Header> {
    pairs.map_values(|p: (Seq<char>, Seq<char>)| header_of_texts(p)).to_multiset()
}

/// The headers held as pairs of a name and a value.
pub open spec fn header_views(pairs: Seq<(String, Vec<u8>)>) -> Seq<Header> {
    pairs.map_values(|p: (String, Vec<u8>)| (p.0@, p.1@))
}

/// What is left of the headers when those of one name are taken away.
pub open spec fn without_name(headers: Multiset<Header>, name: Seq<char>) -> Multiset<Header> {
    headers.filter(|header: Header| header.0 != name)
}

/// The number of headers up to which a header map has room for one more.
/// The map refuses to grow only where it would need more than 32768 slots;
/// it asks for more slots only at 24576 names, or at a fifth as many names as
/// it has slots, which of 32768 slots are 6554.
pub const HEADER_ROOM: usize = 6553;

/// `HeaderMap::new`: a map that holds nothing.
#[verifier::external_body]
pub(crate) fn new_headers() -> (map: http::HeaderMap)
    ensures
        header_entries(map) == Multiset::<Header>::empty(),
{
    http::HeaderMap::new()
}

/// `HeaderMap::try_append`, with the name and the value made by
/// `HeaderName::try_from` and `HeaderValue::try_from`. The name must be a
/// token of at most 65535 bytes and is kept in lower case; the value must
/// hold no control character but the tabulator and is kept as its bytes. On
/// success the pair is in the map once more than before. A name and a
/// value that can be a header are taken while the map holds no more than
/// [`HEADER_ROOM`] headers (`try_reserve_one`, `try_grow` and
/// `try_insert_entry` in the source of the map); beyond that the map may
/// refuse to grow.
#[verifier::external_body]
pub(crate) fn try_append_header(map: &mut http::HeaderMap, name: &String, value: &String) -> (r:
    Result<(), http::Error>)
    ensures
        r is Ok ==> is_header_name(name@) && is_header_value(value@),
        r is Ok ==> header_entries(*final(map)) == header_entries(*old(map)).insert(
            header_of_texts((name@, value@)),
        ),
        is_header_name(name@) && is_header_value(value@) && header_entries(*old(map)).len()
            <= HEADER_ROOM ==> r is Ok,
{
    let name = http::HeaderName::try_from(name)?;
    let value = http::HeaderValue::try_from(value)?;
    map.try_append(name, value)?;
    Ok(())
}

/// `HeaderMap::iter`: every pair of the map in the order of the map, the
/// name by `HeaderName::as_str` and the value by `HeaderValue::as_bytes`.
/// The pairs are all that the map holds.
#[verifier::external_body]
pub(crate) fn header_pairs(map: &http::HeaderMap) -> (pairs: Vec<(String, Vec<u8>)>)
    ensures
        header_views(pairs@) == header_order(*map),
        header_views(pairs@).to_multiset() == header_entries(*map),
{
    map.iter().map(|(name, value)| (name.as_str().to_string(), value.as_bytes().to_vec())).collect()
}

/// `HeaderMap::get_all`: the values that the map holds under a name.
#[verifier::external_body]
pub(crate) fn header_values(map: &http::HeaderMap, name: &str) -> (values: Vec<Vec<u8>>)
    requires
        is_lower_header_name(name@),
    ensures
        forall|value: Seq<u8>|
            values@.map_values(|v: Vec<u8>| v@).contains(value) <==> header_entries(*map).contains(
                (name@, value),
            ),
{
    map.get_all(name).iter().map(|value| value.as_bytes().to_vec()).collect()
}

/// `HeaderMap::remove`: every value under the name leaves the map, and all
/// else stays. The result is one of the values that left, if there was any.
#[verifier::external_body]
pub(crate) fn remove_header(map: &mut http::HeaderMap, name: &str) -> (removed: Option<Vec<u8>>)
    requires
        is_lower_header_name(name@),
    ensures
        header_entries(*final(map)) == without_name(header_entries(*old(map)), name@),
        removed matches Some(value) ==> header_entries(*old(map)).contains((name@, value@)),
        removed is None ==> forall|value: Seq<u8>|
            !header_entries(*old(map)).contains((name@, value)),
{
    map.remove(name).map(|value| value.as_bytes().to_vec())
}

} // verus!
