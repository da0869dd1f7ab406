//! Reading request headers.
//!
//! The header map of a request is kept as the HTTP library built it. What
//! the services read from it is stated over two models: the bytes stored
//! under a header name, and the bytes of one header value.
use vstd::prelude::*;
use vstd::slice::slice_to_vec;
use axum::http::HeaderMap;
use axum::http::HeaderValue;

verus! {

/// The header map of the HTTP library, opaque to the verifier.
#[verifier::external_type_specification]
#[verifier::external_body]
#[verifier::reject_recursive_types(T)]
pub struct ExHeaderMap<T>(axum::http::HeaderMap<T>);

/// One header value of the HTTP library, opaque to the verifier.
#[verifier::external_type_specification]
#[verifier::external_body]
pub struct ExHeaderValue(axum::http::HeaderValue);

/// The error of reading a header value as text, opaque to the verifier.
#[verifier::external_type_specification]
#[verifier::external_body]
pub struct ExToStrError(axum::http::header::ToStrError);

/// The bytes of the first value that `headers` holds under `name`, if it
/// holds one. Names are matched as the map matches them, without regard to
/// letter case.
pub uninterp spec fn header_entry(headers: HeaderMap, name: Seq<char>) -> Option<Seq<u8>>;

/// The bytes of a header value.
pub uninterp spec fn value_bytes(value: HeaderValue) -> Seq<u8>;

/// A byte that may stand in a header value read as text: a printable ASCII
/// character, a space or a tab.
pub open spec fn is_visible_ascii(b: u8) -> bool {
    (32 <= b && b < 127) || b == 9
}

/// Whether every byte of `bytes` is visible ASCII.
pub open spec fn all_visible_ascii(bytes: Seq<u8>) -> bool {
    forall|i: int| 0 <= i < bytes.len() ==> is_visible_ascii(#[trigger] bytes[i])
}

/// ASCII bytes read as characters, one for one.
pub open spec fn ascii_text(bytes: Seq<u8>) -> Seq<char> {
    Seq::new(bytes.len(), |i: int| bytes[i] as char)
}

/// What a service learns when it asks for a header as text.
#[derive(Debug, Clone, PartialEq, Eq)]
pub enum HeaderText {
    /// The request has no such header.
    Absent,
    /// The header is there, but holds a byte that is not visible ASCII.
    Unreadable,
    /// The header's first value.
    Text(String),
}

/// The model of [`HeaderText`]: the text as a sequence of characters.
pub enum HeaderTextView {
    Absent,
    Unreadable,
    Text(Seq<char>),
}

impl View for HeaderText {
    type V = HeaderTextView;

    open spec fn view(&self) -> HeaderTextView {
        match self {
            HeaderText::Absent => HeaderTextView::Absent,
            HeaderText::Unreadable => HeaderTextView::Unreadable,
            HeaderText::Text(s) => HeaderTextView::Text(s@),
        }
    }
}

/// How the stored bytes of a header read as text.
pub open spec fn read_entry(entry: Option<Seq<u8>>) -> HeaderTextView {
    match entry {
        None => HeaderTextView::Absent,
        Some(bytes) => if all_visible_ascii(bytes) {
            HeaderTextView::Text(ascii_text(bytes))
        } else {
            HeaderTextView::Unreadable
        },
    }
}

/// `HeaderMap::get` with a name given as text: the first value stored under
/// the name, or nothing. The contract only names what the map holds; it
/// promises nothing about which names are present.
#[verifier::external_body]
fn get_header<'a>(headers: &'a HeaderMap, name: &str) -> (r: Option<&'a HeaderValue>)
    ensures
        match r {
            Some(v) => header_entry(*headers, name@) == Some(value_bytes(*v)),
            None => header_entry(*headers, name@) is None,
        },
{
    headers.get(name)
}

/// `HeaderValue::to_str`: the value as text if all of its bytes are visible
/// ASCII, and an error otherwise. The text has the value's bytes, each read
/// as one character.
#[verifier::external_body]
fn value_text<'a>(value: &'a HeaderValue) -> (r: Result<&'a str, axum::http::header::ToStrError>)
    ensures
        r is Ok <==> all_visible_ascii(value_bytes(*value)),
        r matches Ok(s) ==> s@ == ascii_text(value_bytes(*value)),
{
    value.to_str()
}

/// `HeaderValue::as_bytes`: the bytes of the value, as they are stored.
#[verifier::external_body]
fn value_octets<'a>(value: &'a HeaderValue) -> (r: &'a [u8])
    ensures
        r@ == value_bytes(*value),
{
    value.as_bytes()
}

/// Reads the bytes of the header `name` of a request, as they came: the
/// first value stored under the name, whatever bytes it holds, or nothing
/// if the request has no such header.
pub fn header_bytes(headers: &HeaderMap, name: &str) -> (r: Option<Vec<u8>>)
    ensures
        match r {
            Some(bytes) => header_entry(*headers, name@) == Some(bytes@),
            None => header_entry(*headers, name@) is None,
        },
{
    match get_header(headers, name) {
        None => None,
        Some(value) => Some(slice_to_vec(value_octets(value))),
    }
}

/// Reads the header `name` of a request as text.
pub fn header_text(headers: &HeaderMap, name: &str) -> (r: HeaderText)
    ensures
        r@ == read_entry(header_entry(*headers, name@)),
{
    match get_header(headers, name) {
        None => HeaderText::Absent,
        Some(value) => match value_text(value) {
            Err(_) => HeaderText::Unreadable,
            Ok(text) => HeaderText::Text(text.to_owned()),
        },
    }
}

} // verus!
