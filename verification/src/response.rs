//! The response builder and the finished response.
//!
//! A [`Responder`] starts as status 200 without headers or body and is
//! changed, call by call, into the response that a handler wants to give.
//! [`Responder::finalize`] consumes it and hands out the [`Response`].

use crate::cache::{cache_text, lemma_cache_text_is_plain, Cache};
use crate::headers::{
    header_count, header_entries, header_name_text, header_names, header_value,
    header_value_bytes, header_value_ok, insert_header, lemma_plain_text_is_header_value,
    new_header_map, no_headers, static_header_name, HEADER_ROOM,
};
use crate::markup::{render, MarkupNode};
use axum::http::{HeaderMap, HeaderName, HeaderValue};
use vstd::prelude::*;
use vstd::slice::slice_to_vec;
use vstd::string::StringSliceAdditionalSpecFns;
use vstd::utf8::encode_utf8;

verus! {

/// The body of a response under construction.
pub enum Body {
    /// No body.
    Empty,
    /// The text of a rendered markup tree.
    Markup(String),
    /// Bytes that are sent as they are.
    Bytes(Vec<u8>),
}

/// The mathematical value of a [`Body`].
pub enum BodyView {
    Empty,
    Markup(Seq<char>),
    Bytes(Seq<u8>),
}

impl BodyView {
    /// The bytes that go on the wire.
    pub open spec fn bytes(self) -> Seq<u8> {
        match self {
            BodyView::Empty => Seq::empty(),
            BodyView::Markup(s) => encode_utf8(s),
            BodyView::Bytes(b) => b,
        }
    }
}

impl View for Body {
    type V = BodyView;

    open spec fn view(&self) -> BodyView {
        match self {
            Body::Empty => BodyView::Empty,
            Body::Markup(s) => BodyView::Markup(s@),
            Body::Bytes(b) => BodyView::Bytes(b@),
        }
    }
}

impl Body {
    /// The bytes of this body.
    pub fn into_bytes(self) -> (bytes: Vec<u8>)
        ensures
            bytes@ == self@.bytes(),
    {
        match self {
            Body::Empty => Vec::new(),
            Body::Markup(s) => slice_to_vec(s.as_str().as_bytes()),
            Body::Bytes(b) => b,
        }
    }
}

/// A finished response: status code, headers and body bytes.
pub struct Response {
    pub status: u16,
    pub headers: HeaderMap<HeaderValue>,
    pub body: Vec<u8>,
}

/// The mathematical value of a [`Response`], and of a [`Responder`]'s
/// headers and status.
pub struct ResponseView {
    pub status: u16,
    pub headers: Map<Seq<char>, Seq<Seq<u8>>>,
    pub body: Seq<u8>,
}

impl View for Response {
    type V = ResponseView;

    open spec fn view(&self) -> ResponseView {
        ResponseView {
            status: self.status,
            headers: header_entries(self.headers),
            body: self.body@,
        }
    }
}

impl ResponseView {
    /// This response with `value` as the only value of the header `name`.
    pub open spec fn with_header(self, name: Seq<char>, value: Seq<u8>) -> ResponseView {
        ResponseView { headers: self.headers.insert(name, seq![value]), ..self }
    }
}

/// A response under construction.
pub struct Responder {
    status_code: u16,
    headers: HeaderMap<HeaderValue>,
    body: Body,
}

/// The mathematical value of a [`Responder`].
pub struct ResponderView {
    pub status_code: u16,
    pub headers: Map<Seq<char>, Seq<Seq<u8>>>,
    pub body: BodyView,
}

impl ResponderView {
    /// The draft that every builder starts from: status 200, no headers, no
    /// body.
    pub open spec fn start() -> ResponderView {
        ResponderView { status_code: 200, headers: no_headers(), body: BodyView::Empty }
    }

    /// This draft with `value` as the only value of the header `name`.
    pub open spec fn with_header(self, name: Seq<char>, value: Seq<u8>) -> ResponderView {
        ResponderView { headers: self.headers.insert(name, seq![value]), ..self }
    }

    /// This draft with the given body.
    pub open spec fn with_body(self, body: BodyView) -> ResponderView {
        ResponderView { body: body, ..self }
    }

    /// This draft after `render`: the rendered tree as body, and the content
    /// type of an HTML page.
    pub open spec fn render(self, text: Seq<char>) -> ResponderView {
        self.with_body(BodyView::Markup(text)).with_header(
            "content-type"@,
            encode_utf8("text/html; charset=utf-8"@),
        )
    }

    /// This draft after `cache`.
    pub open spec fn cache(self, cache: Cache) -> ResponderView {
        self.with_header("cache-control"@, encode_utf8(cache_text(cache)))
    }

    /// This draft after `redirect`: both navigation headers name the target,
    /// and the status stays as it is.
    pub open spec fn redirect(self, target: Seq<u8>) -> ResponderView {
        self.with_header("location"@, target).with_header("hx-location"@, target)
    }

    /// This draft after `set_cookie`.
    pub open spec fn set_cookie(self, value: Seq<u8>) -> ResponderView {
        self.with_header("set-cookie"@, value)
    }

    /// The finished response of this draft.
    pub open spec fn finalize(self) -> ResponseView {
        ResponseView { status: self.status_code, headers: self.headers, body: self.body.bytes() }
    }
}

/// The last write wins: a header that is set twice keeps the second value
/// only.
pub proof fn lemma_last_write_wins(
    draft: ResponderView,
    name: Seq<char>,
    first: Seq<u8>,
    second: Seq<u8>,
)
    ensures
        draft.with_header(name, first).with_header(name, second) == draft.with_header(
            name,
            second,
        ),
{
    assert(draft.headers.insert(name, seq![first]).insert(name, seq![second])
        =~= draft.headers.insert(name, seq![second]));
}

/// The order of calls matters for overwriting only: two different headers
/// can be set in either order, and so can a header and the body.
pub proof fn lemma_independent_calls_commute(
    draft: ResponderView,
    name: Seq<char>,
    value: Seq<u8>,
    other_name: Seq<char>,
    other_value: Seq<u8>,
    body: BodyView,
)
    requires
        name != other_name,
    ensures
        draft.with_header(name, value).with_header(other_name, other_value) == draft.with_header(
            other_name,
            other_value,
        ).with_header(name, value),
        draft.with_header(name, value).with_body(body) == draft.with_body(body).with_header(
            name,
            value,
        ),
{
    assert(draft.headers.insert(name, seq![value]).insert(other_name, seq![other_value])
        =~= draft.headers.insert(other_name, seq![other_value]).insert(name, seq![value]));
}

impl View for Responder {
    type V = ResponderView;

    closed spec fn view(&self) -> ResponderView {
        ResponderView {
            status_code: self.status_code,
            headers: header_entries(self.headers),
            body: self.body@,
        }
    }
}

/// A fresh response builder.
pub fn res() -> (r: Responder)
    ensures
        r@ == ResponderView::start(),
        r.header_names() == 0,
{
    Responder::new()
}

/// The header name `content-type`.
pub(crate) fn content_type_name() -> (h: HeaderName)
    ensures
        header_name_text(h) == "content-type"@,
{
    proof {
        reveal_strlit("content-type");
    }
    static_header_name("content-type")
}

/// The header name `cache-control`.
pub(crate) fn cache_control_name() -> (h: HeaderName)
    ensures
        header_name_text(h) == "cache-control"@,
{
    proof {
        reveal_strlit("cache-control");
    }
    static_header_name("cache-control")
}

/// The content type of an HTML page.
pub(crate) fn html_content_type() -> (v: HeaderValue)
    ensures
        header_value_bytes(v) == encode_utf8("text/html; charset=utf-8"@),
{
    proof {
        reveal_strlit("text/html; charset=utf-8");
        lemma_plain_text_is_header_value("text/html; charset=utf-8"@);
    }
    header_value("text/html; charset=utf-8")
}

impl Responder {
    /// The number of header names in this draft.
    pub closed spec fn header_names(&self) -> nat {
        header_count(self.headers)
    }

    /// Whether `n` more header names fit into this draft.
    pub open spec fn has_room(&self, n: nat) -> bool {
        self.header_names() + n <= HEADER_ROOM
    }

    /// Counts the header names in this draft, so that a caller can see
    /// whether more fit.
    pub fn count_headers(&self) -> (n: usize)
        ensures
            n == self.header_names(),
    {
        header_names(&self.headers)
    }

    /// Status 200, no headers, no body.
    pub fn new() -> (r: Responder)
        ensures
            r@ == ResponderView::start(),
            r.header_names() == 0,
    {
        Responder { status_code: 200, headers: new_header_map(), body: Body::Empty }
    }

    /// Makes the render of `component` the body and sets the content type to
    /// `text/html; charset=utf-8`.
    pub fn render(self, component: &MarkupNode) -> (r: Responder)
        requires
            self.has_room(1),
        ensures
            r@ == self@.render(render(component@)),
            r.header_names() <= self.header_names() + 1,
    {
        let body = component.render_to_string();
        let mut headers = self.headers;
        insert_header(&mut headers, content_type_name(), html_content_type());
        Responder { status_code: self.status_code, headers, body: Body::Markup(body) }
    }

    /// Sets `Cache-Control` to the text of `cache`.
    pub fn cache(self, cache: Cache) -> (r: Responder)
        requires
            self.has_room(1),
        ensures
            r@ == self@.cache(cache),
            r.header_names() <= self.header_names() + 1,
    {
        let text = cache.to_string();
        proof {
            lemma_cache_text_is_plain(cache);
            lemma_plain_text_is_header_value(cache_text(cache));
        }
        let value = header_value(text.as_str());
        let mut headers = self.headers;
        insert_header(&mut headers, cache_control_name(), value);
        Responder { status_code: self.status_code, headers, body: self.body }
    }

    /// Sets `Location` and `hx-location` to `route`. The status is left as it
    /// is: the page's script reads the header and navigates.
    pub fn redirect(self, route: &str) -> (r: Responder)
        requires
            self.has_room(2),
            header_value_ok(route.spec_bytes()),
        ensures
            r@ == self@.redirect(route.spec_bytes()),
            r.header_names() <= self.header_names() + 2,
    {
        let location = header_value(route);
        let hx_location = header_value(route);
        let mut headers = self.headers;
        proof {
            reveal_strlit("location");
            reveal_strlit("hx-location");
        }
        insert_header(&mut headers, static_header_name("location"), location);
        insert_header(&mut headers, static_header_name("hx-location"), hx_location);
        Responder { status_code: self.status_code, headers, body: self.body }
    }

    /// Sets the header `name` to `value`, in place of any earlier value.
    pub fn header(self, name: HeaderName, value: HeaderValue) -> (r: Responder)
        requires
            self.has_room(1),
        ensures
            r@ == self@.with_header(header_name_text(name), header_value_bytes(value)),
            r.header_names() <= self.header_names() + 1,
    {
        let mut headers = self.headers;
        insert_header(&mut headers, name, value);
        Responder { status_code: self.status_code, headers, body: self.body }
    }

    /// Sets `Set-Cookie` to `value`.
    pub fn set_cookie(self, value: HeaderValue) -> (r: Responder)
        requires
            self.has_room(1),
        ensures
            r@ == self@.set_cookie(header_value_bytes(value)),
            r.header_names() <= self.header_names() + 1,
    {
        let mut headers = self.headers;
        proof {
            reveal_strlit("set-cookie");
        }
        insert_header(&mut headers, static_header_name("set-cookie"), value);
        Responder { status_code: self.status_code, headers, body: self.body }
    }

    /// Hands out the finished response. The builder is used up.
    pub fn finalize(self) -> (response: Response)
        ensures
            response@ == self@.finalize(),
            header_count(response.headers) == self.header_names(),
    {
        Response { status: self.status_code, headers: self.headers, body: self.body.into_bytes() }
    }
}

} // verus!
