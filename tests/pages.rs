use seconds_server::pages::{fallback, root_get, ROOT_PATH};
use seconds_server::response::{ContentKind, Response};

#[test]
fn root_get_serves_page_as_html() {
    let page = String::from("<!DOCTYPE html><html><body>Hello</body></html>\n");
    let r = root_get(Ok(page.clone()));
    assert_eq!(r.status, 200);
    assert_eq!(r.content, ContentKind::Html);
    assert_eq!(r.body, page);
}

#[test]
fn root_get_keeps_non_ascii_text() {
    let page = String::from("<p>Grüße, 世界 ✓</p>");
    let r = root_get(Ok(page.clone()));
    assert_eq!(r.status, 200);
    assert_eq!(r.body, page);
}

#[test]
fn root_get_serves_empty_page() {
    let r = root_get(Ok(String::new()));
    assert_eq!(r.status, 200);
    assert_eq!(r.content, ContentKind::Html);
    assert_eq!(r.body, "");
}

#[test]
fn root_get_missing_file_is_server_error() {
    let reason = std::io::Error::from(std::io::ErrorKind::NotFound).to_string();
    let r = root_get(Err(reason.clone()));
    assert_eq!(r.status, 500);
    assert_eq!(r.content, ContentKind::PlainText);
    assert_eq!(
        r.body,
        format!("Internal Server Error: Unable to find file 'src/index.html': {reason}")
    );
    assert!(r.body.contains(ROOT_PATH));
    assert!(r.body.ends_with(&reason));
}

#[test]
fn root_get_error_with_os_message() {
    let r = root_get(Err(String::from("No such file or directory (os error 2)")));
    assert_eq!(r.status, 500);
    assert_eq!(
        r.body,
        "Internal Server Error: Unable to find file 'src/index.html': No such file or directory (os error 2)"
    );
}

#[test]
fn root_path_is_the_index_page() {
    assert_eq!(ROOT_PATH, "src/index.html");
}

#[test]
fn fallback_names_unknown_route() {
    let r = fallback("/foo");
    assert_eq!(r.status, 404);
    assert_eq!(r.content, ContentKind::PlainText);
    assert_eq!(r.body, "Unable to find route '/foo'");
}

#[test]
fn fallback_keeps_query_and_nested_path() {
    let r = fallback("/a/b?c=1");
    assert_eq!(r.status, 404);
    assert_eq!(r.body, "Unable to find route '/a/b?c=1'");
}

#[test]
fn fallback_on_empty_uri() {
    let r = fallback("");
    assert_eq!(r.status, 404);
    assert_eq!(r.body, "Unable to find route ''");
}

#[test]
fn response_new_keeps_its_parts() {
    let r = Response::new(418, ContentKind::PlainText, String::from("teapot"));
    assert_eq!(r.status, 418);
    assert_eq!(r.content, ContentKind::PlainText);
    assert_eq!(r.body, "teapot");
}
