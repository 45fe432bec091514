//! The library's one error type and the responses it turns into.

use crate::headers::{
    header_value, insert_header, lemma_plain_text_is_header_value, new_header_map, no_headers,
    static_header_name,
};
use crate::response::{Response, ResponseView};
use vstd::prelude::*;
use vstd::slice::slice_to_vec;
use vstd::std_specs::convert::FromSpecImpl;
use vstd::utf8::encode_utf8;

verus! {

/// What can go wrong while a request is served.
pub enum Error {
    /// An asset, a cookie, a session or a user is not there.
    NotFound,
    /// The datastore failed; the detail is the datastore's own message.
    Database(String),
    /// Anything else.
    InternalServer,
    /// The datastore found no row.
    RowNotFound,
    /// No user has the given secret.
    UserNotFound,
}

/// The mathematical value of an [`Error`].
pub enum ErrorView {
    NotFound,
    Database(Seq<char>),
    InternalServer,
    RowNotFound,
    UserNotFound,
}

impl View for Error {
    type V = ErrorView;

    open spec fn view(&self) -> ErrorView {
        match self {
            Error::NotFound => ErrorView::NotFound,
            Error::Database(detail) => ErrorView::Database(detail@),
            Error::InternalServer => ErrorView::InternalServer,
            Error::RowNotFound => ErrorView::RowNotFound,
            Error::UserNotFound => ErrorView::UserNotFound,
        }
    }
}

/// How a datastore call failed, as far as this library tells failures apart.
pub enum DbError {
    /// The query matched no row.
    RowNotFound,
    /// The datastore reported an error of its own.
    Database(String),
    /// Any other failure.
    Other,
}

/// The mathematical value of a [`DbError`].
pub enum DbErrorView {
    RowNotFound,
    Database(Seq<char>),
    Other,
}

impl View for DbError {
    type V = DbErrorView;

    open spec fn view(&self) -> DbErrorView {
        match self {
            DbError::RowNotFound => DbErrorView::RowNotFound,
            DbError::Database(detail) => DbErrorView::Database(detail@),
            DbError::Other => DbErrorView::Other,
        }
    }
}

/// The error that a datastore failure becomes: a missing row is a plain
/// `NotFound`, a datastore error keeps its detail, the rest is internal.
pub open spec fn error_of_db(e: DbErrorView) -> ErrorView {
    match e {
        DbErrorView::RowNotFound => ErrorView::NotFound,
        DbErrorView::Database(detail) => ErrorView::Database(detail),
        DbErrorView::Other => ErrorView::InternalServer,
    }
}

impl From<DbError> for Error {
    fn from(value: DbError) -> (e: Error) {
        match value {
            DbError::RowNotFound => Error::NotFound,
            DbError::Database(detail) => Error::Database(detail),
            DbError::Other => Error::InternalServer,
        }
    }
}

impl FromSpecImpl<DbError> for Error {
    open spec fn obeys_from_spec() -> bool {
        true
    }

    open spec fn from_spec(value: DbError) -> Error {
        match value {
            DbError::RowNotFound => Error::NotFound,
            DbError::Database(detail) => Error::Database(detail),
            DbError::Other => Error::InternalServer,
        }
    }
}

/// The text that an error shows: the variant's path, and for a datastore
/// error a marker line and the detail below it.
pub open spec fn error_text(e: ErrorView) -> Seq<char> {
    match e {
        ErrorView::NotFound => "Error::NotFound"@,
        ErrorView::Database(detail) => "Error::Database\n=== \u{21b4}\n"@ + detail,
        ErrorView::InternalServer => "Error::InternalServer"@,
        ErrorView::RowNotFound => "Error::RowNotFound"@,
        ErrorView::UserNotFound => "Error::UserNotFound"@,
    }
}

/// Whether an error is answered with 404 rather than 500.
pub open spec fn is_not_found(e: ErrorView) -> bool {
    e is NotFound || e is RowNotFound
}

/// A response with a plain-text body.
pub open spec fn plain_text_view(status: u16, text: Seq<char>) -> ResponseView {
    ResponseView {
        status: status,
        headers: no_headers().insert(
            "content-type"@,
            seq![encode_utf8("text/plain; charset=utf-8"@)],
        ),
        body: encode_utf8(text),
    }
}

/// The response that an error turns into. What is missing is a 404 with the
/// error's text. Everything else is a 500, which shows the error's text only
/// where `debug` is set and a fixed message otherwise.
pub open spec fn error_response_view(e: ErrorView, debug: bool) -> ResponseView {
    if is_not_found(e) {
        plain_text_view(404, error_text(e))
    } else if debug {
        plain_text_view(500, error_text(e))
    } else {
        plain_text_view(500, "internal server error"@)
    }
}

/// A response with status `status` and `text` as its plain-text body.
pub fn plain_text_response(status: u16, text: &str) -> (response: Response)
    ensures
        response@ == plain_text_view(status, text@),
{
    let mut headers = new_header_map();
    proof {
        reveal_strlit("content-type");
        reveal_strlit("text/plain; charset=utf-8");
        lemma_plain_text_is_header_value("text/plain; charset=utf-8"@);
    }
    insert_header(
        &mut headers,
        static_header_name("content-type"),
        header_value("text/plain; charset=utf-8"),
    );
    Response { status, headers, body: slice_to_vec(text.as_bytes()) }
}

/// The 404 response of an error: its text as the body.
pub fn not_found(error: Error) -> (response: Response)
    ensures
        response@ == plain_text_view(404, error_text(error@)),
{
    let text = error.to_string();
    plain_text_response(404, text.as_str())
}

/// The 500 response of an error. With `debug` set the body is the error's
/// text; without it the body is a fixed message that gives nothing away.
pub fn internal_server_error(error: Error, debug: bool) -> (response: Response)
    ensures
        response@ == plain_text_view(
            500,
            if debug {
                error_text(error@)
            } else {
                "internal server error"@
            },
        ),
{
    if debug {
        let text = error.to_string();
        plain_text_response(500, text.as_str())
    } else {
        plain_text_response(500, "internal server error")
    }
}

impl Error {
    /// The error that a datastore failure becomes.
    pub fn from_db(e: DbError) -> (error: Error)
        ensures
            error@ == error_of_db(e@),
    {
        match e {
            DbError::RowNotFound => Error::NotFound,
            DbError::Database(detail) => Error::Database(detail),
            DbError::Other => Error::InternalServer,
        }
    }

    /// The text of this error.
    pub fn to_string(&self) -> (s: String)
        ensures
            s@ == error_text(self@),
    {
        match self {
            Error::NotFound => String::from_str("Error::NotFound"),
            Error::Database(detail) => {
                let mut s = String::from_str("Error::Database\n=== \u{21b4}\n");
                s.append(detail.as_str());
                s
            },
            Error::InternalServer => String::from_str("Error::InternalServer"),
            Error::RowNotFound => String::from_str("Error::RowNotFound"),
            Error::UserNotFound => String::from_str("Error::UserNotFound"),
        }
    }

    /// The response that this error turns into at the outermost boundary.
    pub fn into_response(self, debug: bool) -> (response: Response)
        ensures
            response@ == error_response_view(self@, debug),
    {
        match self {
            Error::NotFound | Error::RowNotFound => not_found(self),
            _ => internal_server_error(self, debug),
        }
    }
}

} // verus!
