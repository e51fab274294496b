use bhbadge2024::webfile::File;

#[test]
fn html_file_has_utf8_html_mime_type() {
    let f = File::html("<html></html>");
    assert_eq!(f.content_type(), "text/html; charset=utf-8");
    assert_eq!(f.body(), "<html></html>".as_bytes());
    assert_eq!(f.content_length(), 13);
    assert!(f.headers().is_empty());
}

#[test]
fn css_file_has_css_mime_type() {
    let f = File::css("body {}");
    assert_eq!(f.content_type(), "text/css");
    assert_eq!(f.body(), "body {}".as_bytes());
    assert_eq!(f.content_length(), 7);
}

#[test]
fn javascript_file_has_utf8_javascript_mime_type() {
    let f = File::javascript("let x = 1;");
    assert_eq!(f.content_type(), "application/javascript; charset=utf-8");
    assert_eq!(f.body(), "let x = 1;".as_bytes());
}

#[test]
fn with_content_type_keeps_the_given_type_and_body() {
    let body: &'static [u8] = &[0u8, 159, 146, 150];
    let f = File::with_content_type("application/wasm", body);
    assert_eq!(f.content_type(), "application/wasm");
    assert_eq!(f.body(), body);
    assert_eq!(f.content_length(), 4);
    assert!(f.headers().is_empty());
}

#[test]
fn files_are_cloneable() {
    let f = File::html("x");
    let g = f.clone();
    assert_eq!(g.content_type(), "text/html; charset=utf-8");
    assert_eq!(g.body(), b"x");
}
