//! A small request/response toolkit for server-rendered web applications,
//! and the pages and handler decisions of an application built on it.
//!
//! The toolkit has five parts: a markup tree with an escaping renderer
//! ([`markup`]), a fluent response builder ([`response`]), conditional
//! caching by entity tag ([`etag`]), a registry of static assets
//! ([`assets`]) and the resolution of a caller from a session cookie
//! ([`session`]). Apart from fresh identifiers and the clock, everything in
//! it is computed from its arguments; what needs the network or the
//! datastore is left to the program around it, which is told what to ask and
//! hands back the answer.

pub mod text;
pub mod markup;
pub mod headers;
pub mod cache;
pub mod response;
pub mod etag;
pub mod error;
pub mod route;
pub mod model;
pub mod session;
pub mod assets;
pub mod html;
pub mod pages;
pub mod handlers;

pub use cache::{Cache, CacheType};
pub use etag::etag_middleware;
pub use model::ulid;
pub use response::{res, Responder};
