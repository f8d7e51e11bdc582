use static_file_http_server::resolve::{
    content_type_for, content_type_of_extension, file_extension, file_text, index_candidates, join_path,
    not_found_page, resolve_target, root_serve, FileText, ResolvedTarget,
};

#[test]
fn join_adds_missing_separator() {
    assert_eq!(join_path("/srv/www", "a.css"), "/srv/www/a.css");
    assert_eq!(join_path("/srv/www/", "a.css"), "/srv/www/a.css");
    assert_eq!(join_path("", "a.css"), "/a.css");
}

#[test]
fn candidates_in_priority_order() {
    assert_eq!(
        index_candidates("site"),
        vec!["site/index.html", "site/index.htm", "site/index.xhtml", "site/index.shtml"]
    );
}

#[test]
fn not_found_page_under_root() {
    assert_eq!(not_found_page("site/"), "site/404.html");
    assert_eq!(not_found_page("site"), "site/404.html");
}

#[test]
fn last_existing_index_wins() {
    assert_eq!(root_serve(&[true, true, false, false]), "index.htm");
    assert_eq!(root_serve(&[true, false, true, false]), "index.xhtml");
    assert_eq!(root_serve(&[true, true, true, true]), "index.shtml");
    assert_eq!(root_serve(&[true, false, false, false]), "index.html");
    assert_eq!(root_serve(&[false, false, false, true]), "index.shtml");
}

#[test]
fn no_index_defaults_to_htm() {
    assert_eq!(root_serve(&[false, false, false, false]), "index.htm");
}

#[test]
fn mime_from_extension() {
    assert_eq!(content_type_for("site/present-file.css"), "text/css");
    assert_eq!(content_type_for("site/page.html"), "text/html");
    assert_eq!(content_type_for("site/app.js"), "text/javascript");
}

#[test]
fn mime_defaults_to_text_plain() {
    assert_eq!(content_type_for("site/README"), "text/plain");
    assert_eq!(content_type_for("site/file.unknownextension"), "text/plain");
    assert_eq!(content_type_for("site/.hidden"), "text/plain");
    assert_eq!(content_type_of_extension(None), "text/plain");
    assert_eq!(content_type_of_extension(Some(String::new())), "text/plain");
    assert_eq!(content_type_of_extension(Some("png".to_string())), "image/png");
}

#[test]
fn file_text_decodes_utf8() {
    assert!(matches!(file_text(None), FileText::Missing));
    match file_text(Some("héllo".as_bytes().to_vec())) {
        FileText::Text(t) => assert_eq!(t, "héllo"),
        _ => panic!("expected text"),
    }
    assert!(matches!(file_text(Some(vec![0xff, 0xfe])), FileText::NotText));
}

#[test]
fn found_file_target() {
    match resolve_target("text/css".to_string(), FileText::Text("a{}".to_string()), FileText::Missing) {
        ResolvedTarget::File { mime, body } => {
            assert_eq!(mime, "text/css");
            assert_eq!(body, "a{}");
        }
        _ => panic!("expected a file"),
    }
}

#[test]
fn binary_file_gives_empty_body() {
    match resolve_target("image/png".to_string(), FileText::NotText, FileText::Missing) {
        ResolvedTarget::File { mime, body } => {
            assert_eq!(mime, "image/png");
            assert_eq!(body, "");
        }
        _ => panic!("expected a file"),
    }
}

#[test]
fn missing_file_uses_custom_page() {
    match resolve_target("text/css".to_string(), FileText::Missing, FileText::Text("gone".to_string())) {
        ResolvedTarget::NotFound { body } => assert_eq!(body, "gone"),
        _ => panic!("expected not found"),
    }
}

#[test]
fn missing_file_without_page_uses_default() {
    match resolve_target("text/css".to_string(), FileText::Missing, FileText::Missing) {
        ResolvedTarget::NotFound { body } => assert_eq!(body, "File not found!"),
        _ => panic!("expected not found"),
    }
    match resolve_target("text/css".to_string(), FileText::Missing, FileText::NotText) {
        ResolvedTarget::NotFound { body } => assert_eq!(body, "File not found!"),
        _ => panic!("expected not found"),
    }
}

#[test]
fn extension_of_file_name() {
    assert_eq!(file_extension("site/present-file.css"), Some("css".to_string()));
    assert_eq!(file_extension("site/archive.tar.gz"), Some("gz".to_string()));
    assert_eq!(file_extension("site/trailing."), Some(String::new()));
    assert_eq!(file_extension("site/README"), None);
    assert_eq!(file_extension("site/.hidden"), None);
    assert_eq!(file_extension("site.v1/README"), None);
    assert_eq!(file_extension("plain"), None);
    assert_eq!(file_extension("né.txt"), Some("txt".to_string()));
}
