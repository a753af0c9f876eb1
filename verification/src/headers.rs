//! The header fields of a message, held in hyper's `HeaderMap`.
use hyper::header::HeaderName;
use hyper::header::HeaderValue;
use hyper::HeaderMap;
use vstd::prelude::*;
use vstd::utf8::*;

verus! {

/// The multimap from header names to header values.
#[verifier::external_type_specification]
#[verifier::external_body]
#[verifier::reject_recursive_types(T)]
pub struct ExHeaderMap<T>(HeaderMap<T>);

/// One header value.
#[verifier::external_type_specification]
#[verifier::external_body]
pub struct ExHeaderValue(HeaderValue);

/// What a header map holds: for each name, in lower case, the bytes of its
/// values in the order in which they were added.
pub uninterp spec fn header_entries(headers: HeaderMap<HeaderValue>) -> Map<Seq<char>, Seq<Seq<u8>>>;

/// Whether entries are few enough for one more name: a map fails to grow only
/// at many times this number of names.
pub open spec fn has_room(entries: Map<Seq<char>, Seq<Seq<u8>>>) -> bool {
    entries.dom().finite() && entries.dom().len() < 1024
}

/// Whether a text is a header name in lower case, of letters, digits and
/// hyphens.
pub open spec fn is_field_name(name: Seq<char>) -> bool {
    &&& 0 < name.len() <= 64
    &&& forall|i: int|
        0 <= i < name.len() ==> {
            ||| 'a' <= #[trigger] name[i] <= 'z'
            ||| '0' <= name[i] <= '9'
            ||| name[i] == '-'
        }
}

/// Whether a text may be a header value: no control character but the tab.
pub open spec fn is_field_value(text: Seq<char>) -> bool {
    forall|i: int|
        0 <= i < text.len() ==> {
            ||| ' ' <= #[trigger] text[i] && text[i] != '\u{7f}'
            ||| text[i] == '\t'
        }
}

/// The entries of a map that holds nothing.
pub open spec fn no_entries() -> Map<Seq<char>, Seq<Seq<u8>>> {
    Map::empty()
}

/// The entries after one more value was added under a name.
pub open spec fn entries_with(
    entries: Map<Seq<char>, Seq<Seq<u8>>>,
    name: Seq<char>,
    value: Seq<u8>,
) -> Map<Seq<char>, Seq<Seq<u8>>> {
    entries.insert(
        name,
        if entries.dom().contains(name) {
            entries[name].push(value)
        } else {
            seq![value]
        },
    )
}

/// The first value under a name.
pub open spec fn first_value(
    entries: Map<Seq<char>, Seq<Seq<u8>>>,
    name: Seq<char>,
) -> Option<Seq<u8>> {
    if entries.dom().contains(name) {
        Some(entries[name].first())
    } else {
        None
    }
}

/// Calls `HeaderMap::new`: the new map holds nothing.
#[verifier::external_body]
pub(crate) fn header_map() -> (headers: HeaderMap<HeaderValue>)
    ensures
        header_entries(headers) == no_entries(),
{
    HeaderMap::new()
}

/// Calls `HeaderMap::get`: the bytes of the first value under the name, if the
/// map has the name.
#[verifier::external_body]
pub(crate) fn header_get(headers: &HeaderMap<HeaderValue>, name: &str) -> (value: Option<Vec<u8>>)
    requires
        is_field_name(name@),
    ensures
        match value {
            Some(v) => first_value(header_entries(*headers), name@) == Some(v@),
            None => first_value(header_entries(*headers), name@) is None,
        },
{
    headers.get(name).map(|v| v.as_bytes().to_vec())
}

/// Calls `HeaderMap::contains_key`: whether the map has the name.
#[verifier::external_body]
pub(crate) fn header_contains(headers: &HeaderMap<HeaderValue>, name: &str) -> (found: bool)
    requires
        is_field_name(name@),
    ensures
        found == header_entries(*headers).dom().contains(name@),
{
    headers.contains_key(name)
}

/// Calls `HeaderMap::append`: adds a value after those that the name has.
#[verifier::external_body]
pub(crate) fn header_append(headers: &mut HeaderMap<HeaderValue>, name: &'static str, value: &str)
    requires
        is_field_name(name@),
        is_field_value(value@),
        has_room(header_entries(*old(headers))),
    ensures
        header_entries(*final(headers)) == entries_with(
            header_entries(*old(headers)),
            name@,
            encode_utf8(value@),
        ),
{
    headers.append(HeaderName::from_static(name), HeaderValue::from_str(value).unwrap());
}

/// Calls `HeaderMap::insert`: makes a value the only one of its name.
#[verifier::external_body]
pub(crate) fn header_insert(headers: &mut HeaderMap<HeaderValue>, name: &'static str, value: &str)
    requires
        is_field_name(name@),
        is_field_value(value@),
        has_room(header_entries(*old(headers))),
    ensures
        header_entries(*final(headers)) == header_entries(*old(headers)).insert(
            name@,
            seq![encode_utf8(value@)],
        ),
{
    headers.insert(HeaderName::from_static(name), HeaderValue::from_str(value).unwrap());
}

} // verus!
