use dubs::assets::{static_file_response, RegistryError, StaticAsset, StaticFiles};
use dubs::text::str_equal;
use dubs::etag::hash;

fn registry() -> StaticFiles {
    let assets = vec![
        StaticAsset::new("/static/app.js", b"console.log(1)".to_vec(), "application/javascript"),
        StaticAsset::new("/static/app.css", b"p{}".to_vec(), "text/css"),
    ];
    match StaticFiles::build(assets) {
        Ok(files) => files,
        Err(_) => panic!("the table is sound"),
    }
}

#[test]
fn a_registered_asset_is_served() {
    let files = registry();
    let response = static_file_response(&files, "/static/app.js");
    assert_eq!(response.status, 200);
    assert_eq!(response.headers.get("content-type").unwrap(), "application/javascript");
    assert_eq!(
        response.headers.get("cache-control").unwrap(),
        "public, max-age=604800, immutable"
    );
    assert_eq!(response.headers.len(), 2);
    assert_eq!(response.body, b"console.log(1)".to_vec());
}

#[test]
fn a_missing_asset_is_not_found() {
    let files = registry();
    let response = static_file_response(&files, "/static/missing.js");
    assert_eq!(response.status, 404);
    assert_eq!(response.headers.get("content-type").unwrap(), "text/html; charset=utf-8");
    assert_eq!(
        response.headers.get("cache-control").unwrap(),
        "public, max-age=604800, immutable"
    );
    assert_eq!(response.body, b"not found".to_vec());
}

#[test]
fn lookup_finds_by_exact_path() {
    let files = registry();
    assert_eq!(files.len(), 2);
    let css = files.lookup("/static/app.css").unwrap();
    assert_eq!(css.url_path, "/static/app.css");
    assert_eq!(css.content_type, "text/css");
    assert_eq!(css.content, b"p{}".to_vec());
    assert!(files.lookup("/static/app.cs").is_none());
    assert!(files.lookup("/static/app.css ").is_none());
    assert!(files.lookup("/STATIC/app.css").is_none());
    assert!(files.lookup("").is_none());
}

#[test]
fn an_asset_carries_the_tag_of_its_content() {
    let asset = StaticAsset::new("/a", b"abc".to_vec(), "text/plain");
    assert_eq!(asset.content_hash, hash(b"abc"));
    assert_eq!(asset.url_path, "/a");
    assert_eq!(asset.content_type, "text/plain");
}

#[test]
fn a_path_twice_is_refused() {
    let assets = vec![
        StaticAsset::new("/a", b"1".to_vec(), "text/plain"),
        StaticAsset::new("/b", b"2".to_vec(), "text/plain"),
        StaticAsset::new("/a", b"3".to_vec(), "text/plain"),
    ];
    assert!(matches!(StaticFiles::build(assets), Err(RegistryError::DuplicatePath)));
}

#[test]
fn a_content_type_with_a_line_break_is_refused() {
    let assets = vec![StaticAsset::new("/a", b"1".to_vec(), "text/plain\r\nx: y")];
    assert!(matches!(StaticFiles::build(assets), Err(RegistryError::InvalidContentType)));
}

#[test]
fn a_duplicate_is_reported_before_a_content_type() {
    let assets = vec![
        StaticAsset::new("/a", b"1".to_vec(), "bad\n"),
        StaticAsset::new("/a", b"2".to_vec(), "text/plain"),
    ];
    assert!(matches!(StaticFiles::build(assets), Err(RegistryError::DuplicatePath)));
}

#[test]
fn an_empty_table_serves_nothing() {
    let files = match StaticFiles::build(Vec::new()) {
        Ok(files) => files,
        Err(_) => panic!("an empty table is sound"),
    };
    assert_eq!(files.len(), 0);
    assert_eq!(static_file_response(&files, "/").status, 404);
}

#[test]
fn strings_are_compared_whole() {
    assert!(str_equal("", ""));
    assert!(str_equal("é", "é"));
    assert!(!str_equal("a", "A"));
    assert!(!str_equal("a", "ab"));
}
