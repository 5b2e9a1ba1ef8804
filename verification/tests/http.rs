use ppapi::ffi;
use ppapi::ffi::PP_Var;
use ppapi::http::{header_block, try_parse_method, try_parse_url, Loader, ResponseInfo};
use ppapi::url::{RequestInfo, RequestProperties_};

fn var(t: u32, v: i64) -> PP_Var {
    PP_Var { _type: t, padding: 0, value: v }
}

#[test]
fn url_parsing_serializes() {
    assert_eq!(try_parse_url("https://example.net"), Some("https://example.net/".to_string()));
    assert_eq!(try_parse_url("HTTP://EXAMPLE.net/a/../b"), Some("http://example.net/b".to_string()));
    assert_eq!(try_parse_url("not a url"), None);
}

#[test]
fn method_parsing() {
    assert_eq!(try_parse_method("GET"), Some("GET".to_string()));
    assert_eq!(try_parse_method("PROPFIND"), Some("PROPFIND".to_string()));
    assert_eq!(try_parse_method(""), None);
    assert_eq!(try_parse_method("G T"), None);
}

#[test]
fn response_urls_and_methods() {
    let r = ResponseInfo(5);
    assert_eq!(r.url("https://x.org"), "https://x.org/".to_string());
    assert_eq!(r.try_url("::"), None);
    assert_eq!(r.redirect_url(""), None);
    assert_eq!(r.redirect_url("https://y.org/z"), Some("https://y.org/z".to_string()));
    assert_eq!(r.try_redirect_url(""), Some(None));
    assert_eq!(r.try_redirect_url("nope"), None);
    assert_eq!(r.redirect_method(""), None);
    assert_eq!(r.redirect_method("POST"), Some("POST".to_string()));
    assert_eq!(r.raw_url(var(ffi::PP_VARTYPE_STRING, 77)).0, 77);
}

#[test]
fn status_codes() {
    let r = ResponseInfo(5);
    assert_eq!(r.status_code(var(ffi::PP_VARTYPE_INT32, 200)), Some(200));
    assert_eq!(r.status_code(var(ffi::PP_VARTYPE_INT32, 99)), None);
    assert_eq!(r.status_code(var(ffi::PP_VARTYPE_INT32, 1000)), None);
    assert_eq!(r.raw_status_code(var(ffi::PP_VARTYPE_INT32, 0x1_0194)), 404);
    assert_eq!(r.status_code(var(ffi::PP_VARTYPE_INT32, 0x1_0194)), Some(404));
}

#[test]
fn header_block_parsing() {
    let (n, hs) = header_block(b"Host: foo.bar\r\nAccept: */*\r\n\r\nrest", 4).unwrap();
    assert_eq!(n, 30);
    assert_eq!(hs, vec![("Host".to_string(), b"foo.bar".to_vec()), ("Accept".to_string(), b"*/*".to_vec())]);
    assert_eq!(header_block(b"A: b\r\n", 4), None);
}

#[test]
fn header_text_never_ends_in_an_empty_block() {
    // After a complete block the rest of the text is parsed as well; an
    // empty rest does not parse, so the whole text is refused.
    let r = ResponseInfo(5);
    assert_eq!(r.try_headers(b"Host: foo.bar\r\nAccept: */*\r\n\r\n", 4), None);
    assert_eq!(r.try_headers(b"", 4), None);
}

#[test]
fn header_parsing_failures() {
    let r = ResponseInfo(5);
    // Cut short: no empty line ends the block.
    assert_eq!(r.try_headers(b"Host: foo.bar\r\n", 4), None);
    // More headers than room.
    assert_eq!(r.try_headers(b"A: 1\r\nB: 2\r\n\r\n", 1), None);
}

#[test]
fn loader_progress() {
    let l = Loader::from_handles(3, 4);
    assert_eq!(l.info(), ResponseInfo(4));
    assert_eq!(l.download_progress(ffi::PP_TRUE, 5, 9), None);
    assert_eq!(l.download_progress(ffi::PP_FALSE, 5, 9), None);
    assert_eq!(l.download_progress(-1, 5, 9), Some((5, Some(9))));
    assert_eq!(l.download_progress(-1, 5, -1), Some((5, None)));
    assert_eq!(l.upload_progress(-1, 1, 2), Some((1, 2)));
    assert_eq!(l.upload_progress(ffi::PP_TRUE, 1, 2), None);
}

#[test]
fn follow_redirects_sets_value_only() {
    let r = RequestInfo::new("https://a/".to_string(), "GET".to_string(), None, None).follow_redirects();
    assert!(r.properties.contains(&RequestProperties_::FollowRedirects));
    assert!(!r.set_props.contains(&RequestProperties_::FollowRedirects));
}
