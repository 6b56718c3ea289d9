use sharp_pencil::datastructures::MultiDict;
use sharp_pencil::helpers::{plan_range, RangePlan};
use sharp_pencil::routing::{Converter, Matcher};
use sharp_pencil::text::decimal;
use sharp_pencil::{
    abort, escape, redirect, safe_join, send_file, send_file_range, send_from_directory,
    send_from_directory_range, Body, ByteRangeSpec, FileProbe, FormDataParser, HTTPError, Method,
    PenError, Range, Request, Response, UserError,
};

fn http_code(r: Result<Response, PenError>) -> u16 {
    match r {
        Err(PenError::PenHTTPError(e)) => e.code,
        other => panic!("expected an HTTP error, got {:?}", other.map(|r| r.status_code)),
    }
}

fn bytes(v: Vec<ByteRangeSpec>) -> Range {
    Range::Bytes(v)
}

#[test]
fn range_from_to_is_partial_content() {
    let range = bytes(vec![ByteRangeSpec::FromTo(2, 5)]);
    let r = send_file_range("/srv/ten.bin", &FileProbe::Readable(10), "application/octet-stream", false, Some(&range)).unwrap();
    assert_eq!(r.status_code, 206);
    assert_eq!(r.get_header("Content-Length"), Some("4".to_string()));
    assert_eq!(r.get_header("Content-Range"), Some("bytes 2-5/10".to_string()));
    assert_eq!(r.get_header("Content-Type"), Some("application/octet-stream".to_string()));
    match r.body {
        Some(Body::File(f)) => {
            assert_eq!(f.path, "/srv/ten.bin");
            assert_eq!((f.offset, f.length), (2, 4));
        },
        other => panic!("unexpected body {:?}", other),
    }
}

#[test]
fn range_multiple_spans_not_implemented() {
    let range = bytes(vec![ByteRangeSpec::FromTo(0, 1), ByteRangeSpec::FromTo(3, 4)]);
    let r = send_file_range("/srv/ten.bin", &FileProbe::Readable(10), "text/plain", false, Some(&range));
    assert_eq!(http_code(r), 501);
    let other = Range::Unregistered("items".to_string(), "0-1".to_string());
    assert_eq!(plan_range(10, Some(&other)), Err(501));
}

#[test]
fn range_open_and_suffix_forms() {
    assert_eq!(plan_range(10, Some(&bytes(vec![ByteRangeSpec::AllFrom(7)]))), Ok(RangePlan { partial: true, offset: 7, length: 3 }));
    assert_eq!(plan_range(10, Some(&bytes(vec![ByteRangeSpec::Last(4)]))), Ok(RangePlan { partial: true, offset: 6, length: 4 }));
    assert_eq!(plan_range(10, Some(&bytes(vec![ByteRangeSpec::Last(40)]))), Ok(RangePlan { partial: true, offset: 0, length: 10 }));
    assert_eq!(plan_range(10, Some(&bytes(vec![ByteRangeSpec::FromTo(8, 99)]))), Ok(RangePlan { partial: true, offset: 8, length: 2 }));
    assert_eq!(plan_range(10, None), Ok(RangePlan { partial: false, offset: 0, length: 10 }));
}

#[test]
fn range_outside_file_not_satisfiable() {
    assert_eq!(plan_range(10, Some(&bytes(vec![ByteRangeSpec::FromTo(10, 12)]))), Err(416));
    assert_eq!(plan_range(10, Some(&bytes(vec![ByteRangeSpec::FromTo(5, 2)]))), Err(416));
    assert_eq!(plan_range(10, Some(&bytes(vec![ByteRangeSpec::Last(0)]))), Err(416));
    assert_eq!(plan_range(0, Some(&bytes(vec![ByteRangeSpec::AllFrom(0)]))), Err(416));
}

#[test]
fn whole_file_without_range() {
    let r = send_file("/srv/a.txt", &FileProbe::Readable(3), "text/plain", true).unwrap();
    assert_eq!(r.status_code, 200);
    assert_eq!(r.get_header("Content-Length"), Some("3".to_string()));
    assert_eq!(r.get_header("Content-Range"), None);
    assert_eq!(r.get_header("Content-Disposition"), Some("attachment; filename=a.txt".to_string()));
}

#[test]
fn missing_or_unreadable_file() {
    assert_eq!(http_code(send_file("/srv/none", &FileProbe::Missing, "text/plain", false)), 404);
    match send_file("/srv/x", &FileProbe::Unreadable("denied".to_string()), "text/plain", false) {
        Err(PenError::PenUserError(e)) => assert_eq!(e.desc, "couldn't open /srv/x: denied"),
        other => panic!("unexpected {:?}", other.map(|r| r.status_code)),
    }
}

#[test]
fn attachment_without_file_name_is_user_error() {
    match send_file("/srv/..", &FileProbe::Readable(1), "text/plain", true) {
        Err(PenError::PenUserError(e)) => assert_eq!(e.desc, "filename unavailable, required for sending as attachment."),
        other => panic!("unexpected {:?}", other.map(|r| r.status_code)),
    }
}

#[test]
fn traversal_is_not_found() {
    assert_eq!(safe_join("/srv/static", "../secret"), None);
    assert_eq!(safe_join("/srv/static", ".."), None);
    assert_eq!(safe_join("/srv/static", "/etc/passwd"), None);
    assert_eq!(safe_join("/srv/static", "css/a.css"), Some("/srv/static/css/a.css".to_string()));
    assert_eq!(safe_join("/srv/static/", "a.css"), Some("/srv/static/a.css".to_string()));
    let r = send_from_directory_range("/srv/static", "../secret", false, None, &FileProbe::Readable(5));
    assert_eq!(http_code(r), 404);
}

#[test]
fn directory_file_gets_guessed_type() {
    let r = send_from_directory("/srv/static", "notes.txt", false, &FileProbe::Readable(5)).unwrap();
    assert_eq!(r.get_header("Content-Type"), Some("text/plain".to_string()));
    match r.body {
        Some(Body::File(f)) => assert_eq!(f.path, "/srv/static/notes.txt"),
        other => panic!("unexpected body {:?}", other),
    }
}

#[test]
fn escape_replaces_entities() {
    assert_eq!(escape("<a href=\"x\">&</a>"), "&lt;a href=&quot;x&quot;&gt;&amp;&lt;/a&gt;");
    assert_eq!(escape(""), "");
    assert_eq!(escape("plain"), "plain");
}

#[test]
fn redirect_sets_location_and_status() {
    let r = redirect("/next", 302).unwrap();
    assert_eq!(r.status_code, 302);
    assert_eq!(r.get_header("Location"), Some("/next".to_string()));
    assert_eq!(r.get_header("Content-Type"), Some("text/html; charset=UTF-8".to_string()));
    match r.body {
        Some(Body::Text(t)) => assert!(t.contains("<a href=\"/next\">/next</a>")),
        other => panic!("unexpected body {:?}", other),
    }
}

#[test]
fn abort_gives_http_error() {
    assert_eq!(http_code(abort(418)), 418);
}

#[test]
fn error_descriptions() {
    assert_eq!(HTTPError::new(404).description(), "Not Found");
    assert_eq!(HTTPError::new(599).description(), "Unknown Error");
    let e = PenError::PenUserError(UserError::new("bad input"));
    assert_eq!(e.description(), "bad input");
    assert!(e.cause().is_none());
    assert_eq!(PenError::PenHTTPError(HTTPError::new(500)).cause(), Some(HTTPError::new(500)));
}

#[test]
fn error_page_renders_code_and_name() {
    let r = HTTPError::new(404).to_response();
    assert_eq!(r.status_code, 404);
    let page = "<!DOCTYPE HTML PUBLIC \"-//W3C//DTD HTML 3.2 Final//EN\">\n<title>404 Not Found</title>\n<h1>Not Found</h1>\n";
    assert_eq!(r.get_header("Content-Length"), Some(page.len().to_string()));
    match r.body {
        Some(Body::Text(t)) => assert_eq!(t, page),
        other => panic!("unexpected body {:?}", other),
    }
}

#[test]
fn response_accessors() {
    let mut r = Response::new_empty();
    assert_eq!(r.status_name(), "OK");
    r.set_content_type("text/plain");
    assert_eq!(r.content_type(), Some("text/plain; charset=UTF-8".to_string()));
    r.set_content_type("image/png");
    assert_eq!(r.content_type(), Some("image/png".to_string()));
    r.set_content_length(1234);
    assert_eq!(r.get_header("Content-Length"), Some("1234".to_string()));
    r.status_code = 799;
    assert_eq!(r.status_name(), "UNKNOWN");
    let b = Response::from_bytes(vec![1, 2, 3]);
    assert_eq!(b.get_header("Content-Length"), Some("3".to_string()));
}

#[test]
fn decimal_rendering() {
    assert_eq!(decimal(0), "0");
    assert_eq!(decimal(10), "10");
    assert_eq!(decimal(18446744073709551615), "18446744073709551615");
}

#[test]
fn multidict_keeps_lists() {
    let mut d: MultiDict<String> = MultiDict::new();
    d.add("a".to_string(), "1".to_string());
    d.add("b".to_string(), "2".to_string());
    d.add("a".to_string(), "3".to_string());
    assert_eq!(d.get("a"), Some(&"1".to_string()));
    assert_eq!(d.getlist("a"), Some(&vec!["1".to_string(), "3".to_string()]));
    assert_eq!(d.keys(), vec!["a".to_string(), "b".to_string()]);
    assert_eq!(d.values(), vec![&"1".to_string(), &"2".to_string()]);
    d.set("a", "9".to_string());
    assert_eq!(d.getlist("a"), Some(&vec!["9".to_string()]));
    assert_eq!(d.get("missing"), None);
    let pairs: Vec<(String, String)> = d.iter().into_iter().map(|(k, v)| (k.clone(), v.clone())).collect();
    assert_eq!(pairs, vec![("a".to_string(), "9".to_string()), ("b".to_string(), "2".to_string())]);
    assert_eq!(d.listiter().len(), 2);
    assert_eq!(d.listvalues().len(), 2);
}

#[test]
fn query_args_are_decoded_once() {
    let mut req = Request::new(
        "127.0.0.1:1".to_string(),
        Method::Get,
        "example.com".to_string(),
        "/search".to_string(),
        Some("q=a+b&n=1&q=%41".to_string()),
        vec![("Accept".to_string(), "*/*".to_string())],
        None,
    );
    let args = req.args();
    assert_eq!(args.getlist("q"), Some(&vec!["a b".to_string(), "A".to_string()]));
    assert_eq!(args.get("n"), Some(&"1".to_string()));
    assert_eq!(req.full_path(), "/search?q=a+b&n=1&q=%41");
    assert_eq!(req.url(), "http://example.com/search?q=a+b&n=1&q=%41");
    assert_eq!(req.base_url(), "http://example.com/search");
    assert_eq!(req.host_url(), "http://example.com/");
}

#[test]
fn urlencoded_form_is_parsed() {
    let p = FormDataParser::new();
    let form = p.parse(b"name=ann&age=3", "application/x-www-form-urlencoded");
    assert_eq!(form.get("name"), Some(&"ann".to_string()));
    let none = p.parse(b"name=ann", "text/plain");
    assert!(none.keys().is_empty());
    assert!(p.is_multipart("multipart/form-data; boundary=x"));
}

#[test]
fn matcher_patterns() {
    let m = Matcher::new("/static/<filename:path>");
    assert_eq!(m.prefix, "/static/");
    assert_eq!(m.variable, Some(("filename".to_string(), Converter::Path)));
    assert_eq!(m.bind("/static/a/b.css"), Some(Some(("filename".to_string(), "a/b.css".to_string()))));
    assert_eq!(m.bind("/static/"), None);
    let lit = Matcher::new("/about");
    assert_eq!(lit.variable, None);
    assert_eq!(lit.bind("/about"), Some(None));
    assert_eq!(Method::Patch.name(), "PATCH");
}

#[test]
fn content_length_reads_back() {
    let mut r = Response::new_empty();
    assert_eq!(r.content_length(), None);
    r.set_content_length(42);
    assert_eq!(r.content_length(), Some(42));
    r.set_header("Content-Length", "4x".to_string());
    assert_eq!(r.content_length(), None);
    r.set_header("Content-Length", "99999999999999999999".to_string());
    assert_eq!(r.content_length(), None);
}

#[test]
fn head_and_bodiless_statuses_omit_body() {
    let mut r = Response::from_text("x".to_string());
    assert!(r.omits_body(Method::Head));
    assert!(!r.omits_body(Method::Get));
    r.status_code = 204;
    assert!(r.omits_body(Method::Get));
    r.status_code = 304;
    assert!(r.omits_body(Method::Get));
    r.status_code = 101;
    assert!(r.omits_body(Method::Get));
}

#[test]
fn request_headers_last_value_wins() {
    let req = Request::new(
        "127.0.0.1:1".to_string(),
        Method::Get,
        "example.com".to_string(),
        "/".to_string(),
        None,
        vec![("X-A".to_string(), "1".to_string()), ("X-A".to_string(), "2".to_string())],
        None,
    );
    assert_eq!(req.get_header("X-A"), Some("2".to_string()));
    assert_eq!(req.get_header("X-B"), None);
}

#[test]
fn form_is_filled_once() {
    let mut req = Request::new(
        "127.0.0.1:1".to_string(),
        Method::Post,
        "example.com".to_string(),
        "/".to_string(),
        None,
        vec![],
        Some("application/x-www-form-urlencoded".to_string()),
    );
    assert!(req.form().is_none());
    let p = FormDataParser::new();
    req.fill_form(p.parse(b"a=1", "application/x-www-form-urlencoded"));
    req.fill_form(p.parse(b"a=2", "application/x-www-form-urlencoded"));
    assert_eq!(req.form().unwrap().get("a"), Some(&"1".to_string()));
}

#[test]
fn errors_convert_into_pen_error() {
    let e: PenError = HTTPError::new(404).into();
    assert_eq!(e.cause(), Some(HTTPError::new(404)));
    let u: PenError = UserError::new("x").into();
    assert_eq!(u.description(), "x");
}

#[test]
fn request_getters() {
    let req = Request::new(
        "10.0.0.1:80".to_string(),
        Method::Put,
        "example.com".to_string(),
        "/a".to_string(),
        Some("k=v".to_string()),
        vec![("Cookie".to_string(), "id=1".to_string())],
        None,
    );
    assert_eq!(req.path(), "/a");
    assert_eq!(req.host(), "example.com");
    assert_eq!(req.query_string(), Some("k=v".to_string()));
    assert_eq!(req.method(), Method::Put);
    assert_eq!(req.remote_addr(), "10.0.0.1:80");
    assert_eq!(req.cookies(), Some("id=1".to_string()));
    assert_eq!(req.endpoint(), None);
    assert_eq!(req.module_name(), None);
}
