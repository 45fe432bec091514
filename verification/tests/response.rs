use axum::http::{HeaderName, HeaderValue};
use dubs::cache::{Cache, CacheType};
use dubs::headers::{header_value, is_header_value};
use dubs::html::render;
use dubs::markup::{tag, text};
use dubs::response::{res, Body, Responder};

#[test]
fn a_fresh_builder_is_an_empty_ok() {
    let response = res().finalize();
    assert_eq!(response.status, 200);
    assert!(response.headers.is_empty());
    assert!(response.body.is_empty());
    let response = Responder::new().finalize();
    assert_eq!(response.status, 200);
    assert_eq!(response.headers.len(), 0);
    assert_eq!(response.body.len(), 0);
}

#[test]
fn redirect_sets_both_headers_and_keeps_the_status() {
    let response = res().redirect("/sets").finalize();
    assert_eq!(response.status, 200);
    assert_eq!(response.headers.get("location").unwrap(), "/sets");
    assert_eq!(response.headers.get("hx-location").unwrap(), "/sets");
    assert_eq!(response.headers.len(), 2);
    assert!(response.body.is_empty());
}

#[test]
fn render_sets_body_and_content_type() {
    let node = tag("p").text("1 < 2").node();
    let response = res().render(&node).finalize();
    assert_eq!(response.status, 200);
    assert_eq!(response.headers.get("content-type").unwrap(), "text/html; charset=utf-8");
    assert_eq!(response.headers.len(), 1);
    assert_eq!(response.body, b"<p>1 &lt; 2</p>".to_vec());
}

#[test]
fn cache_sets_cache_control() {
    let cache = Cache {
        max_age: 60,
        cache_type: CacheType::Private,
        no_cache: false,
        must_revalidate: false,
    };
    let response = res().cache(cache).finalize();
    assert_eq!(response.headers.get("cache-control").unwrap(), "max_age=60,private");
    assert_eq!(response.headers.len(), 1);
}

#[test]
fn header_inserts_and_the_last_write_wins() {
    let response = res()
        .header(HeaderName::from_static("x-one"), HeaderValue::from_static("a"))
        .header(HeaderName::from_static("x-two"), HeaderValue::from_static("b"))
        .header(HeaderName::from_static("x-one"), HeaderValue::from_static("c"))
        .finalize();
    assert_eq!(response.headers.get("x-one").unwrap(), "c");
    assert_eq!(response.headers.get("x-two").unwrap(), "b");
    assert_eq!(response.headers.len(), 2);
    assert_eq!(response.headers.get_all("x-one").iter().count(), 1);
}

#[test]
fn header_names_are_case_insensitive() {
    let response = res()
        .header(HeaderName::from_bytes(b"X-Mixed").unwrap(), HeaderValue::from_static("a"))
        .header(HeaderName::from_static("x-mixed"), HeaderValue::from_static("b"))
        .finalize();
    assert_eq!(response.headers.len(), 1);
    assert_eq!(response.headers.get("X-MIXED").unwrap(), "b");
}

#[test]
fn set_cookie_sets_the_cookie() {
    let response = res().set_cookie(HeaderValue::from_static("id=1")).finalize();
    assert_eq!(response.headers.get("set-cookie").unwrap(), "id=1");
    let response = res()
        .set_cookie(HeaderValue::from_static("id=1"))
        .set_cookie(HeaderValue::from_static("id=2"))
        .finalize();
    assert_eq!(response.headers.get_all("set-cookie").iter().count(), 1);
    assert_eq!(response.headers.get("set-cookie").unwrap(), "id=2");
}

#[test]
fn later_calls_overwrite_earlier_ones() {
    let first = tag("p").text("first").node();
    let second = tag("p").text("second").node();
    let response = res()
        .redirect("/a")
        .render(&first)
        .redirect("/b")
        .render(&second)
        .finalize();
    assert_eq!(response.headers.get("location").unwrap(), "/b");
    assert_eq!(response.headers.get("hx-location").unwrap(), "/b");
    assert_eq!(response.body, b"<p>second</p>".to_vec());
    assert_eq!(response.headers.len(), 3);
}

#[test]
fn a_builder_counts_its_header_names() {
    assert_eq!(res().count_headers(), 0);
    assert_eq!(res().redirect("/sets").count_headers(), 2);
    assert_eq!(res().redirect("/a").redirect("/b").count_headers(), 2);
    let node = tag("p").node();
    assert_eq!(
        res().redirect("/a").set_cookie(HeaderValue::from_static("id=1")).render(&node).count_headers(),
        4
    );
}

#[test]
fn body_bytes() {
    assert_eq!(Body::Empty.into_bytes(), Vec::<u8>::new());
    assert_eq!(Body::Markup("hé".to_string()).into_bytes(), "hé".as_bytes().to_vec());
    assert_eq!(Body::Bytes(vec![0, 255]).into_bytes(), vec![0, 255]);
}

#[test]
fn header_values_hold_the_bytes_of_the_text() {
    assert_eq!(header_value("/sets").as_bytes(), b"/sets");
    assert_eq!(header_value("").as_bytes(), b"");
    assert_eq!(header_value("a\tb").as_bytes(), b"a\tb");
    assert_eq!(header_value("é").as_bytes(), "é".as_bytes());
}

#[test]
fn control_characters_cannot_stand_in_a_header() {
    assert!(is_header_value("/sets"));
    assert!(is_header_value(""));
    assert!(is_header_value("a\tb"));
    assert!(is_header_value("é"));
    assert!(!is_header_value("a\nb"));
    assert!(!is_header_value("a\rb"));
    assert!(!is_header_value("\u{7f}"));
    assert!(!is_header_value("\0"));
}

#[test]
fn a_page_is_sent_as_html() {
    let page = render(text("a&b"));
    assert_eq!(page.to_string(), "a&amp;b");
    let response = page.into_response();
    assert_eq!(response.status, 200);
    assert_eq!(response.headers.get("content-type").unwrap(), "text/html");
    assert_eq!(response.headers.len(), 1);
    assert_eq!(response.body, b"a&amp;b".to_vec());
}
