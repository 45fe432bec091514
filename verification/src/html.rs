//! A rendered page as a value of its own, and the plain response that it
//! turns into.

use crate::headers::{
    header_value, insert_header, lemma_plain_text_is_header_value, new_header_map, no_headers,
    static_header_name,
};
use crate::markup::{render as rendered, MarkupNode};
use crate::response::{Response, ResponseView};
use vstd::prelude::*;
use vstd::slice::slice_to_vec;
use vstd::utf8::encode_utf8;

verus! {

/// A markup tree that is ready to be sent as an HTML page.
pub struct Html(pub MarkupNode);

/// The response of a page: status 200, content type `text/html`, the render
/// of the tree as the body.
pub open spec fn html_response_view(text: Seq<char>) -> ResponseView {
    ResponseView {
        status: 200,
        headers: no_headers().insert("content-type"@, seq![encode_utf8("text/html"@)]),
        body: encode_utf8(text),
    }
}

/// Wraps a tree as a page.
pub fn render(children: MarkupNode) -> (page: Html)
    ensures
        page.0 == children,
{
    Html(children)
}

impl Html {
    /// The text of the page.
    pub fn to_string(&self) -> (s: String)
        ensures
            s@ == rendered(self.0@),
    {
        self.0.render_to_string()
    }

    /// The response that sends the page.
    pub fn into_response(self) -> (response: Response)
        ensures
            response@ == html_response_view(rendered(self.0@)),
    {
        let text = self.to_string();
        let mut headers = new_header_map();
        proof {
            reveal_strlit("content-type");
            reveal_strlit("text/html");
            lemma_plain_text_is_header_value("text/html"@);
        }
        insert_header(&mut headers, static_header_name("content-type"), header_value("text/html"));
        Response { status: 200, headers, body: slice_to_vec(text.as_str().as_bytes()) }
    }
}

} // verus!
