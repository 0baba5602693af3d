use rest_client::error::RestError;
use rest_client::request::{Method, RestClient};

#[test]
fn get_without_params_keeps_url() {
    let c = RestClient::get("http://example.test/search?x=1").unwrap();
    assert_eq!(c.url, "http://example.test/search?x=1");
    assert_eq!(c.method, Method::Get);
    assert!(c.body.is_none());
    assert_eq!(c.content_length, 0);
    assert!(c.content_type.is_none());
}

#[test]
fn get_with_params_assembles_query() {
    let c = RestClient::get_with_params(
        "http://example.test/search",
        &[("q", "a b"), ("q", "c")],
    )
    .unwrap();
    assert_eq!(c.url, "http://example.test/search?q=a+b&q=c");
    assert_eq!(c.content_length, 0);
    assert!(c.content_type.is_none());
    assert!(c.body.is_none());
}

#[test]
fn post_raw_body() {
    let c = RestClient::post("http://example.test/items", "{\"x\":1}", "application/json")
        .unwrap();
    assert_eq!(c.method, Method::Post);
    assert_eq!(c.url, "http://example.test/items");
    assert_eq!(c.content_length, "{\"x\":1}".len());
    assert_eq!(c.content_length, 7);
    assert_eq!(c.body.as_deref(), Some("{\"x\":1}"));
    assert_eq!(c.content_type.as_deref(), Some("application/json"));
}

#[test]
fn no_body_means_content_length_zero() {
    let get = RestClient::get("http://example.test/").unwrap();
    assert_eq!(get.content_length, 0);
    let del = RestClient::delete("http://example.test/").unwrap();
    assert_eq!(del.method, Method::Delete);
    assert_eq!(del.content_length, 0);
    let delp = RestClient::delete_with_params("http://example.test/", &[("k", "v")]).unwrap();
    assert_eq!(delp.url, "http://example.test/?k=v");
    assert_eq!(delp.content_length, 0);
}

#[test]
fn body_content_length_is_byte_length() {
    let body = "h\u{e9}llo";
    let c = RestClient::put("http://example.test/", body, "text/plain").unwrap();
    assert_eq!(c.method, Method::Put);
    assert_eq!(c.content_length, 6);
    assert_eq!(c.content_length, body.len());
}

#[test]
fn param_form_content_type_is_forced() {
    let post = RestClient::post_with_params("http://example.test/", &[("a", "1")]).unwrap();
    assert_eq!(
        post.content_type.as_deref(),
        Some("application/x-www-form-urlencoded")
    );
    let put = RestClient::put_with_params("http://example.test/", &[("a", "1")]).unwrap();
    assert_eq!(put.method, Method::Put);
    assert_eq!(
        put.content_type.as_deref(),
        Some("application/x-www-form-urlencoded")
    );
    let patch = RestClient::patch_with_params("http://example.test/", &[("a", "1")]).unwrap();
    assert_eq!(patch.method, Method::Patch);
    assert_eq!(
        patch.content_type.as_deref(),
        Some("application/x-www-form-urlencoded")
    );
}

#[test]
fn param_form_body_is_encoded() {
    let c = RestClient::post_with_params("http://example.test/", &[("a b", "c&d=e")]).unwrap();
    assert_eq!(c.body.as_deref(), Some("a+b=c%26d%3De"));
    assert_eq!(c.content_length, "a+b=c%26d%3De".len());
    let c = RestClient::patch("http://example.test/", "xy", "text/plain").unwrap();
    assert_eq!(c.body.as_deref(), Some("xy"));
    assert_eq!(c.content_length, 2);
}

#[test]
fn duplicate_keys_stay_separate() {
    let c = RestClient::get_with_params("http://example.test/s", &[("q", "1"), ("q", "2")])
        .unwrap();
    assert_eq!(c.url, "http://example.test/s?q=1&q=2");
}

#[test]
fn invalid_url_is_a_parse_error() {
    let empty = RestClient::get("");
    assert!(matches!(empty, Err(RestError::UrlParseError(_))));
    let no_scheme = RestClient::get("example.test/path");
    assert!(matches!(no_scheme, Err(RestError::UrlParseError(_))));
    let post = RestClient::post("", "body", "text/plain");
    assert!(matches!(post, Err(RestError::UrlParseError(_))));
    let with_params = RestClient::post_with_params("", &[("a", "b")]);
    assert!(matches!(with_params, Err(RestError::UrlParseError(_))));
}

#[test]
fn parser_normalizes_scheme_and_host() {
    let c = RestClient::get("HTTP://EXAMPLE.test").unwrap();
    assert_eq!(c.url, "http://example.test/");
}

#[test]
fn params_replace_query_and_keep_fragment() {
    let c = RestClient::get_with_params("http://example.test/a?old=1#frag", &[("n", "2")])
        .unwrap();
    assert_eq!(c.url, "http://example.test/a?n=2#frag");
}

#[test]
fn generic_entry_point_composes() {
    let c = RestClient::new(
        Method::Patch,
        "http://example.test/x",
        Some(&[("k", "v")]),
        Some("payload"),
        Some("text/plain"),
    )
    .unwrap();
    assert_eq!(c.method, Method::Patch);
    assert_eq!(c.url, "http://example.test/x?k=v");
    assert_eq!(c.body.as_deref(), Some("payload"));
    assert_eq!(c.content_length, 7);
    assert_eq!(c.content_type.as_deref(), Some("text/plain"));
    assert!(c.wants_body());
    let bare = RestClient::get("http://example.test/x").unwrap();
    assert!(!bare.wants_body());
}

#[test]
fn method_names() {
    assert_eq!(Method::Get.name(), "GET");
    assert_eq!(Method::Post.name(), "POST");
    assert_eq!(Method::Put.name(), "PUT");
    assert_eq!(Method::Patch.name(), "PATCH");
    assert_eq!(Method::Delete.name(), "DELETE");
}

#[test]
fn empty_param_list_sets_empty_query() {
    let c = RestClient::get_with_params("http://example.test/p", &[]).unwrap();
    assert_eq!(c.url, "http://example.test/p?");
}

#[test]
fn error_detail_is_kept() {
    let e = RestError::UrlParseError(String::from("bad input"));
    assert_eq!(e.detail(), "bad input");
}
