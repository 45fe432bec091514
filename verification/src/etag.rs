//! Conditional caching by entity tag.
//!
//! The tag of a response is a fast, non-cryptographic hash of its body
//! bytes, written as a decimal number. It says whether a cached copy is
//! still fresh and is never used for anything else.

use crate::error::{plain_text_response, plain_text_view};
use crate::headers::{
    header_count, header_entries, header_names, header_value, header_value_bytes,
    insert_header, lemma_plain_text_is_header_value, new_header_map, no_headers,
    static_header_name, HEADER_ROOM,
};
use crate::response::{Response, ResponseView};
use crate::text::{bytes_eq, decimal, lemma_decimal_digits, u64_to_string};
use axum::http::{HeaderMap, HeaderValue};
use std::collections::hash_map::DefaultHasher;
use std::hash::Hasher;
use vstd::prelude::*;
use vstd::std_specs::hash::DefaultHasherAdditionalSpecFns;
use vstd::utf8::encode_utf8;

verus! {

/// The hash of a body: what the standard library's default hasher gives
/// after one write of the bytes. The bytes alone are written, not their
/// length before them, so this is not the number that hashing the slice
/// through `Hash` would give.
pub open spec fn body_hash(content: Seq<u8>) -> u64 {
    DefaultHasher::spec_finish(seq![content])
}

/// The entity tag of a body: its hash as a decimal numeral.
pub open spec fn etag_text(content: Seq<u8>) -> Seq<char> {
    decimal(body_hash(content) as nat)
}

/// The bytes of the entity tag of a body, as they stand in a header.
pub open spec fn etag_bytes(content: Seq<u8>) -> Seq<u8> {
    encode_utf8(etag_text(content))
}

/// The answer to a request whose response body could not be read in full.
pub open spec fn unreadable_body_view() -> ResponseView {
    plain_text_view(400, "Failed to read body"@)
}

/// Whether the caching layer adds the tag to the handler's own headers:
/// where there is a body to tag and the request does not already hold its
/// tag. Only then must those headers have room for one more name.
pub open spec fn adds_tag(if_none_match: Option<Seq<u8>>, body: Option<Seq<u8>>) -> bool {
    body matches Some(bytes) && bytes.len() > 0 && if_none_match != Some(etag_bytes(bytes))
}

/// What the caching layer makes of a handler's response.
///
/// `body` is `None` where the body could not be read in full. An empty body
/// passes through untouched. Otherwise the response gets its entity tag; and
/// where the request's `If-None-Match` is that tag, the answer is 304 with
/// the tag as its only header and no body.
pub open spec fn etag_outcome(
    if_none_match: Option<Seq<u8>>,
    status: u16,
    headers: Map<Seq<char>, Seq<Seq<u8>>>,
    body: Option<Seq<u8>>,
) -> ResponseView {
    match body {
        None => unreadable_body_view(),
        Some(bytes) => if bytes.len() == 0 {
            ResponseView { status: status, headers: headers, body: bytes }
        } else if if_none_match == Some(etag_bytes(bytes)) {
            ResponseView {
                status: 304,
                headers: no_headers().insert("etag"@, seq![etag_bytes(bytes)]),
                body: Seq::empty(),
            }
        } else {
            ResponseView {
                status: status,
                headers: headers.insert("etag"@, seq![etag_bytes(bytes)]),
                body: bytes,
            }
        },
    }
}

/// The bytes of an optional header value.
pub open spec fn value_bytes_of(value: Option<HeaderValue>) -> Option<Seq<u8>> {
    match value {
        Some(v) => Some(header_value_bytes(v)),
        None => None,
    }
}

/// The content of an optional run of bytes.
pub open spec fn bytes_of(body: Option<Vec<u8>>) -> Option<Seq<u8>> {
    match body {
        Some(b) => Some(b@),
        None => None,
    }
}

/// The entity tag of `content`.
pub fn hash(content: &[u8]) -> (tag: String)
    ensures
        tag@ == etag_text(content@),
{
    let mut hasher = DefaultHasher::new();
    hasher.write(content);
    let hash_value = hasher.finish();
    assert(Seq::<Seq<u8>>::empty().push(content@) =~= seq![content@]);
    u64_to_string(hash_value)
}

/// The answer to a request whose response body could not be read in full:
/// 400 with a short plain-text message.
pub fn unreadable_body() -> (response: Response)
    ensures
        response@ == unreadable_body_view(),
{
    plain_text_response(400, "Failed to read body")
}

/// Whether `if_none_match` holds exactly the tag `etag`.
fn holds_tag(if_none_match: &Option<HeaderValue>, etag: &str) -> (held: bool)
    ensures
        held == (value_bytes_of(*if_none_match) == Some(encode_utf8(etag@))),
{
    match if_none_match {
        Some(value) => bytes_eq(value.as_bytes(), etag.as_bytes()),
        None => false,
    }
}

/// Whether the caching layer would add the tag to the handler's own headers.
pub fn adds_tag_to(if_none_match: &Option<HeaderValue>, body: &Option<Vec<u8>>) -> (adds: bool)
    ensures
        adds == adds_tag(value_bytes_of(*if_none_match), bytes_of(*body)),
{
    match body {
        Some(bytes) => {
            if bytes.len() == 0 {
                false
            } else {
                let etag = hash(bytes.as_slice());
                !holds_tag(if_none_match, etag.as_str())
            }
        },
        None => false,
    }
}

/// The caching layer around one handler call.
///
/// `if_none_match` is the request's header of that name, `status` and
/// `headers` are the handler's response, and `body` holds its body bytes, or
/// `None` where they could not be read in full.
///
/// The handler's headers need room for one more name only where the tag is
/// added to them; a response that passes through, a 304 and a 400 are
/// answered whatever the size of the handler's headers.
pub fn etag_middleware(
    if_none_match: Option<HeaderValue>,
    status: u16,
    headers: HeaderMap<HeaderValue>,
    body: Option<Vec<u8>>,
) -> (response: Response)
    requires
        adds_tag(value_bytes_of(if_none_match), bytes_of(body)) ==> header_count(headers)
            < HEADER_ROOM,
    ensures
        response@ == etag_outcome(
            value_bytes_of(if_none_match),
            status,
            header_entries(headers),
            bytes_of(body),
        ),
{
    let bytes = match body {
        Some(bytes) => bytes,
        None => {
            return unreadable_body();
        },
    };
    if bytes.len() == 0 {
        return Response { status, headers, body: bytes };
    }
    let etag = hash(bytes.as_slice());
    proof {
        reveal_strlit("etag");
        lemma_decimal_digits(body_hash(bytes@) as nat);
        lemma_plain_text_is_header_value(etag_text(bytes@));
    }
    let value = header_value(etag.as_str());
    if holds_tag(&if_none_match, etag.as_str()) {
        let mut only = new_header_map();
        insert_header(&mut only, static_header_name("etag"), value);
        Response { status: 304, headers: only, body: Vec::new() }
    } else {
        let mut headers = headers;
        insert_header(&mut headers, static_header_name("etag"), value);
        Response { status, headers, body: bytes }
    }
}

/// The caching layer around one handler call, for a response of any size:
/// nothing where the tag would have to be added to headers that leave no
/// room for one more name, and what [`etag_middleware`] gives otherwise.
pub fn checked_etag_middleware(
    if_none_match: Option<HeaderValue>,
    status: u16,
    headers: HeaderMap<HeaderValue>,
    body: Option<Vec<u8>>,
) -> (response: Option<Response>)
    ensures
        response is Some <==> (adds_tag(value_bytes_of(if_none_match), bytes_of(body))
            ==> header_count(headers) < HEADER_ROOM),
        response matches Some(r) ==> r@ == etag_outcome(
            value_bytes_of(if_none_match),
            status,
            header_entries(headers),
            bytes_of(body),
        ),
{
    if header_names(&headers) < HEADER_ROOM || !adds_tag_to(&if_none_match, &body) {
        Some(etag_middleware(if_none_match, status, headers, body))
    } else {
        None
    }
}

/// The tag is stable: whatever two calls of [`hash`] on the same bytes give,
/// the two tags are the same.
pub proof fn lemma_hash_is_stable(content: &[u8], first: String, second: String)
    requires
        call_ensures(hash, (content,), first),
        call_ensures(hash, (content,), second),
    ensures
        first@ == second@,
{
}

/// A tag that is replayed is honoured: whatever the first request carried,
/// the response to it names the body's tag in `ETag`; and a second request
/// for the same response with that tag as `If-None-Match` is answered 304,
/// without a body and with the same `ETag` and no other header.
pub proof fn lemma_replayed_tag_is_not_modified(
    first_if_none_match: Option<Seq<u8>>,
    status: u16,
    headers: Map<Seq<char>, Seq<Seq<u8>>>,
    body: Seq<u8>,
)
    requires
        body.len() > 0,
    ensures
        ({
            let first = etag_outcome(first_if_none_match, status, headers, Some(body));
            let tag = first.headers["etag"@];
            let second = etag_outcome(Some(tag[0]), status, headers, Some(body));
            &&& first.headers.contains_key("etag"@)
            &&& tag == seq![etag_bytes(body)]
            &&& second.status == 304
            &&& second.body.len() == 0
            &&& second.headers == no_headers().insert("etag"@, tag)
        }),
{
}

/// A response without a body is handed on as it is, whatever the request's
/// `If-None-Match` says; so the layer never answers 304 in place of it.
pub proof fn lemma_empty_body_passes_through(
    if_none_match: Option<Seq<u8>>,
    status: u16,
    headers: Map<Seq<char>, Seq<Seq<u8>>>,
)
    ensures
        etag_outcome(if_none_match, status, headers, Some(Seq::<u8>::empty())) == (ResponseView {
            status: status,
            headers: headers,
            body: Seq::<u8>::empty(),
        }),
        status != 304 ==> etag_outcome(
            if_none_match,
            status,
            headers,
            Some(Seq::<u8>::empty()),
        ).status != 304,
{
}

} // verus!
