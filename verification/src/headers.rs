//! Header names, values and maps of the `http` crate, as the response builder
//! and the caching layer use them.
//!
//! These types are opaque to the verifier. What a value holds is given a
//! name here, and each call into `http` is a small function whose contract
//! says, over those names, what the crate's source shows. None of these
//! contracts is proved.

use axum::http::header::InvalidHeaderValue;
use axum::http::{HeaderMap, HeaderName, HeaderValue};
use crate::text::{is_plain_char, is_plain_text, lemma_plain_text_bytes};
use vstd::prelude::*;
use vstd::string::StringSliceAdditionalSpecFns;
use vstd::utf8::*;

verus! {

/// `http::HeaderMap`, the multimap from header names to header values.
#[verifier::external_type_specification]
#[verifier::external_body]
#[verifier::reject_recursive_types(T)]
pub struct ExHeaderMap<T>(HeaderMap<T>);

/// `http::HeaderName`, a validated, lower-case header name.
#[verifier::external_type_specification]
#[verifier::external_body]
pub struct ExHeaderName(HeaderName);

/// `http::HeaderValue`, the validated bytes of a header value.
#[verifier::external_type_specification]
#[verifier::external_body]
pub struct ExHeaderValue(HeaderValue);

/// `http::header::InvalidHeaderValue`, the error of a refused header value.
#[verifier::external_type_specification]
#[verifier::external_body]
pub struct ExInvalidHeaderValue(InvalidHeaderValue);

/// The text of a header name, as `HeaderName::as_str` gives it.
pub uninterp spec fn header_name_text(name: HeaderName) -> Seq<char>;

/// The bytes of a header value, as `HeaderValue::as_bytes` gives them.
pub uninterp spec fn header_value_bytes(value: HeaderValue) -> Seq<u8>;

/// What a header map holds: for each name that is present, its values in the
/// order in which they were added.
pub uninterp spec fn header_entries(map: HeaderMap<HeaderValue>) -> Map<Seq<char>, Seq<Seq<u8>>>;

/// The content of a header map without any entry.
pub open spec fn no_headers() -> Map<Seq<char>, Seq<Seq<u8>>> {
    Map::empty()
}

/// The number of names in a header map, as `HeaderMap::keys_len` gives it.
pub uninterp spec fn header_count(map: HeaderMap<HeaderValue>) -> nat;

/// The number of names up to which the library adds a header to a map.
/// `http` panics when a map outgrows its table of 32768 slots. The table
/// doubles when it is three quarters full, or a fifth full while under a
/// flood of colliding names; so the first insert that can fail is one into
/// a map of 6554 names, and a map of fewer than this always has room.
pub const HEADER_ROOM: usize = 6553;

/// Bytes that `http` accepts in a header value: tab, and everything from
/// space upwards but DEL.
pub open spec fn is_header_value_byte(b: u8) -> bool {
    (b >= 32 && b != 127) || b == 9
}

/// Whether `http` accepts these bytes as a header value.
pub open spec fn header_value_ok(bytes: Seq<u8>) -> bool {
    forall|i: int| 0 <= i < bytes.len() ==> is_header_value_byte(#[trigger] bytes[i])
}

/// A character of a header name as the library writes them: a lower-case
/// letter, a digit or a hyphen.
pub open spec fn is_name_char(c: char) -> bool {
    ('a' <= c && c <= 'z') || ('0' <= c && c <= '9') || c == '-'
}

/// A header name as the library writes them: one to sixty-four characters,
/// each a lower-case letter, a digit or a hyphen.
pub open spec fn is_plain_header_name(name: Seq<char>) -> bool {
    &&& 1 <= name.len() <= 64
    &&& forall|i: int| 0 <= i < name.len() ==> is_name_char(#[trigger] name[i])
}

/// `HeaderMap::new` gives a map without any entry.
#[verifier::external_body]
pub(crate) fn new_header_map() -> (headers: HeaderMap<HeaderValue>)
    ensures
        header_entries(headers) == no_headers(),
        header_count(headers) == 0,
{
    HeaderMap::new()
}

/// `HeaderMap::insert` makes `value` the only value of `name` and leaves the
/// other names as they were. It panics only when the map is full, which a map
/// of fewer than [`HEADER_ROOM`] names is not.
#[verifier::external_body]
pub(crate) fn insert_header(map: &mut HeaderMap<HeaderValue>, name: HeaderName, value: HeaderValue)
    requires
        header_count(*old(map)) < HEADER_ROOM,
    ensures
        header_entries(*final(map)) == header_entries(*old(map)).insert(
            header_name_text(name),
            seq![header_value_bytes(value)],
        ),
        header_count(*final(map)) == header_count(*old(map)) + (if header_entries(
            *old(map),
        ).contains_key(header_name_text(name)) {
            0nat
        } else {
            1nat
        }),
{
    map.insert(name, value);
}

/// `HeaderMap::keys_len` gives the number of names in the map.
#[verifier::external_body]
pub(crate) fn header_names(map: &HeaderMap<HeaderValue>) -> (n: usize)
    ensures
        n == header_count(*map),
{
    map.keys_len()
}

/// `HeaderName::from_static` keeps a valid lower-case name as it is. It
/// panics on an invalid one; names of lower-case letters, digits and hyphens
/// are valid.
#[verifier::external_body]
pub(crate) fn static_header_name(name: &'static str) -> (h: HeaderName)
    requires
        is_plain_header_name(name@),
    ensures
        header_name_text(h) == name@,
{
    HeaderName::from_static(name)
}

/// `HeaderValue::from_str` accepts a string exactly when each of its bytes is
/// a tab or at least a space and not DEL, and then holds the string's bytes.
#[verifier::external_body]
pub(crate) fn header_value_from_str(src: &str) -> (r: Result<HeaderValue, InvalidHeaderValue>)
    ensures
        r is Ok <==> header_value_ok(src.spec_bytes()),
        r matches Ok(v) ==> header_value_bytes(v) == src.spec_bytes(),
{
    HeaderValue::from_str(src)
}

/// `HeaderValue::as_bytes` gives the bytes of the value.
pub assume_specification[ HeaderValue::as_bytes ](value: &HeaderValue) -> (bytes: &[u8])
    ensures
        bytes@ == header_value_bytes(*value),
;

/// `http` accepts plain text as a header value.
pub proof fn lemma_plain_text_is_header_value(s: Seq<char>)
    requires
        is_plain_text(s),
    ensures
        header_value_ok(encode_utf8(s)),
{
    lemma_plain_text_bytes(s);
    assert forall|i: int| 0 <= i < encode_utf8(s).len() implies is_header_value_byte(
        #[trigger] encode_utf8(s)[i],
    ) by {
        assert(is_plain_char(s[i]));
    }
}

/// Header values joined are a header value.
pub proof fn lemma_header_value_concat(a: Seq<u8>, b: Seq<u8>)
    requires
        header_value_ok(a),
        header_value_ok(b),
    ensures
        header_value_ok(a + b),
{
    assert forall|i: int| 0 <= i < (a + b).len() implies is_header_value_byte(
        #[trigger] (a + b)[i],
    ) by {
        if i < a.len() {
            assert((a + b)[i] == a[i]);
        } else {
            assert((a + b)[i] == b[i - a.len()]);
        }
    }
}

/// The header value that holds the bytes of `src`.
pub fn header_value(src: &str) -> (v: HeaderValue)
    requires
        header_value_ok(src.spec_bytes()),
    ensures
        header_value_bytes(v) == src.spec_bytes(),
{
    match header_value_from_str(src) {
        Ok(v) => v,
        Err(_) => unreached(),
    }
}

/// Whether `src` can stand as a header value.
pub fn is_header_value(src: &str) -> (ok: bool)
    ensures
        ok == header_value_ok(src.spec_bytes()),
{
    header_value_from_str(src).is_ok()
}

} // verus!
