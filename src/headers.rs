//! The request headers as the resolver reads them.

use axum::http::HeaderMap;
use vstd::prelude::*;

verus! {

#[verifier::external_type_specification]
#[verifier::external_body]
#[verifier::reject_recursive_types(T)]
pub struct ExHeaderMap<T>(axum::http::HeaderMap<T>);

#[verifier::external_type_specification]
#[verifier::external_body]
pub struct ExHeaderValue(axum::http::HeaderValue);

/// What a header map holds: for each header name (in lower case, the form in
/// which the map stores names) the bytes of the first value stored under it.
pub uninterp spec fn first_header_values(h: HeaderMap) -> Map<Seq<char>, Seq<u8>>;

/// A byte that a header value may hold and still be read as text: a visible
/// ASCII character, a space or a tab.
pub open spec fn is_visible_ascii(b: u8) -> bool {
    (32 <= b && b < 127) || b == 9
}

pub open spec fn all_visible_ascii(bytes: Seq<u8>) -> bool {
    forall|i: int| 0 <= i < bytes.len() ==> is_visible_ascii(#[trigger] bytes[i])
}

/// The text that ASCII bytes spell.
pub open spec fn ascii_text(bytes: Seq<u8>) -> Seq<char> {
    bytes.map_values(|b: u8| b as char)
}

/// A header name as the map stores it: lower-case letters and dashes.
pub open spec fn is_stored_header_name(name: Seq<char>) -> bool {
    &&& name.len() > 0
    &&& forall|i: int|
        0 <= i < name.len() ==> (('a' <= #[trigger] name[i] && name[i] <= 'z') || name[i] == '-')
}

/// The text of the first value of header `name`, where there is one and it is
/// made of visible ASCII only; otherwise nothing, as if the header were absent.
pub open spec fn header_text_of(values: Map<Seq<char>, Seq<u8>>, name: Seq<char>) -> Option<
    Seq<char>,
> {
    if values.contains_key(name) && all_visible_ascii(values[name]) {
        Some(ascii_text(values[name]))
    } else {
        None
    }
}

/// Relies on `HeaderMap::get` (the first value stored under a name; `None`
/// where there is none) and `HeaderValue::to_str` (the value as text when every
/// byte is visible ASCII or a tab, an error otherwise).
#[verifier::external_body]
pub(crate) fn header_text(headers: &HeaderMap, name: &str) -> (r: Option<String>)
    requires
        is_stored_header_name(name@),
    ensures
        match r {
            Some(text) => header_text_of(first_header_values(*headers), name@) == Some(text@),
            None => header_text_of(first_header_values(*headers), name@) is None,
        },
{
    match headers.get(name) {
        Some(value) => match value.to_str() {
            Ok(text) => Some(text.to_owned()),
            Err(_) => None,
        },
        None => None,
    }
}

} // verus!
