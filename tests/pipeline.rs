use sharp_pencil::routing::{Matcher, Method, Rule, UrlMap, MatchOutcome};
use sharp_pencil::{Body, HTTPError, Module, PenError, Pencil, Request, Response, Stage, UserError};

fn request(method: Method, path: &str, query: Option<&str>) -> Request {
    Request::new(
        "127.0.0.1:1".to_string(),
        method,
        "localhost".to_string(),
        path.to_string(),
        query.map(|q| q.to_string()),
        vec![("Accept".to_string(), "text/html".to_string())],
        None,
    )
}

fn bound(app: &Pencil, method: Method, path: &str) -> Request {
    let mut req = request(method, path, None);
    req.match_request(&app.url_map);
    req
}

fn ok_text(s: &str) -> Result<Response, PenError> {
    Ok(Response::from_text(s.to_string()))
}

fn header(r: &Response, name: &str) -> Option<String> {
    r.get_header(name)
}

#[test]
fn matching_method_dispatches_to_view() {
    let mut app = Pencil::new("/web");
    app.route("/post", &[Method::Get], "show", 7);
    let req = bound(&app, Method::Get, "/post");
    assert_eq!(req.endpoint(), Some("show".to_string()));
    match app.start(&req) {
        Stage::View { view } => assert_eq!(view, 7),
        other => panic!("unexpected stage {:?}", other),
    }
}

#[test]
fn wrong_method_is_method_not_allowed() {
    let mut app = Pencil::new("/web");
    app.route("/post", &[Method::Get], "show", 7);
    let req = bound(&app, Method::Post, "/post");
    assert_eq!(req.routing_error, Some(HTTPError::new(405)));
    match app.start(&req) {
        Stage::After { .. } => panic!("no hooks were registered"),
        Stage::Done { response } => assert_eq!(response.status_code, 405),
        other => panic!("unexpected stage {:?}", other),
    }
}

#[test]
fn unknown_path_is_not_found() {
    let mut app = Pencil::new("/web");
    app.get("/post", "show", 7);
    let req = bound(&app, Method::Get, "/nothing");
    assert_eq!(req.routing_error, Some(HTTPError::new(404)));
}

#[test]
fn missing_trailing_slash_redirects() {
    let mut app = Pencil::new("/web");
    app.get("/docs/", "docs", 1);
    let mut req = request(Method::Get, "/docs", Some("a=1"));
    req.match_request(&app.url_map);
    assert_eq!(req.routing_redirect, Some(("/docs/?a=1".to_string(), 301)));
    match app.start(&req) {
        Stage::Done { response } => {
            assert_eq!(response.status_code, 301);
            assert_eq!(header(&response, "Location"), Some("/docs/?a=1".to_string()));
        },
        other => panic!("unexpected stage {:?}", other),
    }
}

#[test]
fn path_variable_is_bound() {
    let mut app = Pencil::new("/web");
    app.get("/user/<name>", "user", 3);
    let req = bound(&app, Method::Get, "/user/ann");
    assert_eq!(req.view_arg("name"), Some("ann".to_string()));
    let req2 = bound(&app, Method::Get, "/user/ann/x");
    assert_eq!(req2.routing_error, Some(HTTPError::new(404)));
}

#[test]
fn module_endpoint_is_namespaced() {
    let mut app = Pencil::new("/web");
    let mut m = Module::new("blog", "/web/blog");
    m.route("/post", &[Method::Get], "show", 9);
    m.register(&mut app);
    assert_eq!(app.url_map.rules.len(), 1);
    assert_eq!(app.url_map.rules[0].endpoint, "blog.show");
    let req = bound(&app, Method::Get, "/post");
    assert_eq!(req.module_name(), Some("blog".to_string()));
    match app.start(&req) {
        Stage::View { view } => assert_eq!(view, 9),
        other => panic!("unexpected stage {:?}", other),
    }
}

#[test]
fn registered_module_name_is_taken() {
    let mut app = Pencil::new("/web");
    let m = Module::new("blog", "/web/blog");
    assert!(app.find_module("blog").is_none());
    app.register_module(m);
    assert!(app.find_module("blog").is_some());
    assert_eq!(app.modules.len(), 1);
}

#[test]
fn module_app_registrations_are_replayed() {
    let mut app = Pencil::new("/web");
    let mut m = Module::new("blog", "/web/blog");
    m.before_app_request(1);
    m.after_app_request(2);
    m.teardown_app_request(3);
    m.app_httperrorhandler(404, 4);
    m.app_usererrorhandler("boom", 5);
    m.before_request(6);
    m.register(&mut app);
    assert_eq!(app.before_request_funcs, vec![1]);
    assert_eq!(app.after_request_funcs, vec![2]);
    assert_eq!(app.teardown_request_funcs, vec![3]);
    assert_eq!(app.http_error_handlers, vec![(404, 4)]);
    assert_eq!(app.user_error_handlers, vec![("boom".to_string(), 5)]);
    assert_eq!(app.modules[0].before_request_funcs, vec![6]);
    assert!(app.modules[0].deferred_functions.is_empty());
}

fn blog_app() -> Pencil {
    let mut app = Pencil::new("/web");
    let mut m = Module::new("blog", "/web/blog");
    m.route("/post", &[Method::Get], "show", 100);
    m.before_request(1);
    m.after_request(11);
    m.after_request(12);
    m.after_request(13);
    m.teardown_request(21);
    m.teardown_request(22);
    m.register(&mut app);
    app.before_request(2);
    app.after_request(14);
    app.after_request(15);
    app.teardown_request(23);
    app
}

#[test]
fn module_before_hooks_run_first_and_a_result_stops_them() {
    let app = blog_app();
    let req = bound(&app, Method::Get, "/post");
    let s = app.start(&req);
    match s {
        Stage::Before { index, hook } => {
            assert_eq!((index, hook), (0, 1));
        },
        other => panic!("unexpected stage {:?}", other),
    }
    match app.before_hook_done(&req, 0, None) {
        Stage::Before { index, hook } => assert_eq!((index, hook), (1, 2)),
        other => panic!("unexpected stage {:?}", other),
    }
    match app.before_hook_done(&req, 1, None) {
        Stage::View { view } => assert_eq!(view, 100),
        other => panic!("unexpected stage {:?}", other),
    }
    match app.before_hook_done(&req, 0, Some(ok_text("early"))) {
        Stage::After { index, hook, .. } => assert_eq!((index, hook), (0, 13)),
        other => panic!("unexpected stage {:?}", other),
    }
}

#[test]
fn after_and_teardown_hooks_run_in_reverse() {
    let app = blog_app();
    let req = bound(&app, Method::Get, "/post");
    let mut stage = app.view_done(&req, ok_text("body"));
    let mut afters = Vec::new();
    let mut teardowns = Vec::new();
    loop {
        stage = match stage {
            Stage::After { index, hook, response } => {
                afters.push(hook);
                app.after_hook_done(&req, index, response)
            },
            Stage::Teardown { index, hook, error, response } => {
                assert!(error.is_none());
                teardowns.push(hook);
                app.teardown_done(&req, index, error, response)
            },
            Stage::Done { response } => {
                assert_eq!(response.status_code, 200);
                break;
            },
            other => panic!("unexpected stage {:?}", other),
        };
    }
    assert_eq!(afters, vec![13, 12, 11, 15, 14]);
    assert_eq!(teardowns, vec![22, 21, 23]);
}

#[test]
fn module_error_handler_wins_over_app_handler() {
    let mut app = Pencil::new("/web");
    let mut m = Module::new("blog", "/web/blog");
    m.route("/post", &[Method::Get], "show", 100);
    m.httperrorhandler(404, 50);
    m.register(&mut app);
    app.httperrorhandler(404, 60);
    let req = bound(&app, Method::Get, "/post");
    match app.view_done(&req, Err(PenError::PenHTTPError(HTTPError::new(404)))) {
        Stage::HttpHandler { handler, error } => {
            assert_eq!(handler, 50);
            assert_eq!(error.code, 404);
        },
        other => panic!("unexpected stage {:?}", other),
    }
    let outside = bound(&app, Method::Get, "/other");
    match app.start(&outside) {
        Stage::HttpHandler { handler, .. } => assert_eq!(handler, 60),
        other => panic!("unexpected stage {:?}", other),
    }
}

#[test]
fn unhandled_user_error_becomes_internal_server_error() {
    let mut app = Pencil::new("/web");
    app.get("/", "index", 1);
    app.teardown_request(5);
    let req = bound(&app, Method::Get, "/");
    let err = PenError::PenUserError(UserError::new("boom"));
    let stage = app.view_done(&req, Err(err));
    let error = match stage {
        Stage::Failed { error } => error,
        other => panic!("unexpected stage {:?}", other),
    };
    assert_eq!(error.description(), "boom");
    match app.failure_logged(&req, error) {
        Stage::Teardown { hook, error, response, .. } => {
            assert_eq!(hook, 5);
            assert!(error.is_some());
            assert_eq!(response.status_code, 500);
        },
        other => panic!("unexpected stage {:?}", other),
    }
}

#[test]
fn user_error_handler_is_used_and_its_error_is_final() {
    let mut app = Pencil::new("/web");
    app.get("/", "index", 1);
    app.usererrorhandler("boom", 8);
    app.httperrorhandler(500, 9);
    let req = bound(&app, Method::Get, "/");
    match app.view_done(&req, Err(PenError::PenUserError(UserError::new("boom")))) {
        Stage::UserHandler { handler, error } => {
            assert_eq!(handler, 8);
            assert_eq!(error.desc, "boom");
        },
        other => panic!("unexpected stage {:?}", other),
    }
    match app.handler_done(&req, Err(PenError::PenHTTPError(HTTPError::new(404)))) {
        Stage::Failed { error } => assert_eq!(error.description(), "Not Found"),
        other => panic!("unexpected stage {:?}", other),
    }
    match app.failure_logged(&req, PenError::PenHTTPError(HTTPError::new(404))) {
        Stage::FailureHandler { handler, .. } => assert_eq!(handler, 9),
        other => panic!("unexpected stage {:?}", other),
    }
    match app.failure_handler_done(&req, PenError::PenHTTPError(HTTPError::new(404)), Err(PenError::PenHTTPError(HTTPError::new(400)))) {
        Stage::Done { response } => assert_eq!(response.status_code, 500),
        other => panic!("unexpected stage {:?}", other),
    }
}

#[test]
fn automatic_options_lists_allowed_methods() {
    let mut app = Pencil::new("/web");
    app.route("/post", &[Method::Get, Method::Post], "show", 1);
    let req = bound(&app, Method::Options, "/post");
    match app.start(&req) {
        Stage::Done { response } => {
            assert_eq!(response.status_code, 200);
            assert!(response.body.is_none());
            assert_eq!(header(&response, "Allow"), Some("GET, POST, HEAD, OPTIONS".to_string()));
        },
        other => panic!("unexpected stage {:?}", other),
    }
}

#[test]
fn endpoint_without_view_is_not_found() {
    let mut app = Pencil::new("/web");
    app.url_map.add(Rule::new(Matcher::new("/lost"), &[Method::Get], "lost"));
    let req = bound(&app, Method::Get, "/lost");
    match app.start(&req) {
        Stage::Done { response } => assert_eq!(response.status_code, 404),
        other => panic!("unexpected stage {:?}", other),
    }
}

#[test]
fn static_route_names_the_file() {
    let mut app = Pencil::new("/web");
    app.enable_static_file_handling();
    let req = bound(&app, Method::Get, "/static/css/site.css");
    match app.start(&req) {
        Stage::StaticFile { directory, filename } => {
            assert_eq!(directory, "/web/static");
            assert_eq!(filename, "css/site.css");
        },
        other => panic!("unexpected stage {:?}", other),
    }
}

#[test]
fn module_static_route_uses_module_folder() {
    let mut app = Pencil::new("/web");
    let mut m = Module::new("blog", "/web/blog");
    m.static_folder = Some("assets".to_string());
    m.static_url_path = Some("/blog/static".to_string());
    m.register(&mut app);
    assert_eq!(app.url_map.rules[0].endpoint, "blog.static");
    let req = bound(&app, Method::Get, "/blog/static/a.png");
    match app.start(&req) {
        Stage::StaticFile { directory, filename } => {
            assert_eq!(directory, "/web/blog/assets");
            assert_eq!(filename, "a.png");
        },
        other => panic!("unexpected stage {:?}", other),
    }
}

#[test]
fn url_map_binding_picks_first_rule() {
    let mut map = UrlMap::new();
    map.add(Rule::new(Matcher::new("/a"), &[Method::Post], "first"));
    map.add(Rule::new(Matcher::new("/a"), &[Method::Get], "second"));
    match map.bind("/a", None, Method::Get) {
        MatchOutcome::MatchedRule(i, b) => {
            assert_eq!(i, 1);
            assert!(b.is_none());
        },
        other => panic!("unexpected outcome {:?}", other),
    }
    let allowed = map.allowed_methods("/a");
    assert_eq!(allowed, vec![Method::Post, Method::Options, Method::Get, Method::Head]);
}

#[test]
fn body_is_kept_through_hooks() {
    let mut app = Pencil::new("/web");
    app.get("/", "index", 1);
    app.after_request(2);
    let req = bound(&app, Method::Get, "/");
    match app.view_done(&req, ok_text("hi")) {
        Stage::After { response, .. } => match response.body {
            Some(Body::Text(t)) => assert_eq!(t, "hi"),
            other => panic!("unexpected body {:?}", other),
        },
        other => panic!("unexpected stage {:?}", other),
    }
}
