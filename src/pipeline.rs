//! The request lifecycle as a state machine. The caller runs the user
//! function that each stage names and reports what it returned; the library
//! decides what comes next: before-request hooks, dispatch, error recovery,
//! after-request hooks, and teardown.
use vstd::prelude::*;
use crate::app::{Pencil, ViewFunc, module_lookup};
use crate::helpers::{join_path, join_spec, redirect, redirect_spec, result_view};
use crate::module::Module;
use crate::registry::{FuncId, code_lookup, named_lookup, find_code, find_named};
use crate::routing::{Method, allow_header, allow_header_spec, allowed_spec};
use crate::types::{HTTPError, PenError, UserError, ErrorView, INTERNAL_SERVER_ERROR, NOT_FOUND};
use crate::wrappers::{Request, Response, ResponseView, error_response_spec, module_of, view_args_view};

verus! {

/// Where a request stands in its lifecycle.
#[derive(Debug)]
pub enum Stage {
    /// Run before-request hook `hook`, the `index`-th; report what it returned.
    Before { index: usize, hook: FuncId },
    /// Run view `view`; report its result.
    View { view: FuncId },
    /// Send `filename` from `directory` with `send_from_directory_range`; report its result.
    StaticFile { directory: String, filename: String },
    /// Run HTTP error handler `handler` on `error`; report its result.
    HttpHandler { handler: FuncId, error: HTTPError },
    /// Run user error handler `handler` on `error`; report its result.
    UserHandler { handler: FuncId, error: UserError },
    /// Run after-request hook `hook`, the `index`-th, on `response`; hand the response back.
    After { index: usize, hook: FuncId, response: Response },
    /// The request failed with `error`, which nothing recovered; log it and report.
    Failed { error: PenError },
    /// Run the Internal Server Error handler `handler` on `http_error` for the
    /// failure `error`; report its result.
    FailureHandler { handler: FuncId, http_error: HTTPError, error: PenError },
    /// Run teardown hook `hook`, the `index`-th, with `error`; report that it ran.
    Teardown { index: usize, hook: FuncId, error: Option<PenError>, response: Response },
    /// Send `response`.
    Done { response: Response },
}

pub ghost enum StageView {
    Before { index: int, hook: FuncId },
    View { view: FuncId },
    StaticFile { directory: Seq<char>, filename: Seq<char> },
    HttpHandler { handler: FuncId, code: u16 },
    UserHandler { handler: FuncId, desc: Seq<char> },
    After { index: int, hook: FuncId, response: ResponseView },
    Failed { error: ErrorView },
    FailureHandler { handler: FuncId, code: u16, error: ErrorView },
    Teardown { index: int, hook: FuncId, error: Option<ErrorView>, response: ResponseView },
    Done { response: ResponseView },
}

pub open spec fn opt_error_view(e: Option<PenError>) -> Option<ErrorView> {
    match e {
        Some(x) => Some(x@),
        None => None,
    }
}

impl View for Stage {
    type V = StageView;

    open spec fn view(&self) -> StageView {
        match self {
            Stage::Before { index, hook } => StageView::Before { index: *index as int, hook: *hook },
            Stage::View { view } => StageView::View { view: *view },
            Stage::StaticFile { directory, filename } => StageView::StaticFile {
                directory: directory@,
                filename: filename@,
            },
            Stage::HttpHandler { handler, error } => StageView::HttpHandler { handler: *handler, code: error.code },
            Stage::UserHandler { handler, error } => StageView::UserHandler { handler: *handler, desc: error.desc@ },
            Stage::After { index, hook, response } => StageView::After {
                index: *index as int,
                hook: *hook,
                response: response@,
            },
            Stage::Failed { error } => StageView::Failed { error: error@ },
            Stage::FailureHandler { handler, http_error, error } => StageView::FailureHandler {
                handler: *handler,
                code: http_error.code,
                error: error@,
            },
            Stage::Teardown { index, hook, error, response } => StageView::Teardown {
                index: *index as int,
                hook: *hook,
                error: opt_error_view(*error),
                response: response@,
            },
            Stage::Done { response } => StageView::Done { response: response@ },
        }
    }
}

/// The module that the request's endpoint belongs to, if it is attached.
pub open spec fn request_module(app: &Pencil, req: &Request) -> Option<Module> {
    match req.url_rule {
        Some(rule) => match module_of(rule.endpoint@) {
            Some(name) => module_lookup(app.modules@, name),
            None => None,
        },
        None => None,
    }
}

/// Before-request hooks in the order they run: the module's, then the application's.
pub open spec fn before_hooks(app: &Pencil, req: &Request) -> Seq<FuncId> {
    match request_module(app, req) {
        Some(m) => m.before_request_funcs@ + app.before_request_funcs@,
        None => app.before_request_funcs@,
    }
}

/// After-request hooks in the order they run: the module's, then the
/// application's, each list last-registered first.
pub open spec fn after_hooks(app: &Pencil, req: &Request) -> Seq<FuncId> {
    match request_module(app, req) {
        Some(m) => m.after_request_funcs@.reverse() + app.after_request_funcs@.reverse(),
        None => app.after_request_funcs@.reverse(),
    }
}

/// Teardown hooks in the order they run, as for after-request hooks.
pub open spec fn teardown_hooks(app: &Pencil, req: &Request) -> Seq<FuncId> {
    match request_module(app, req) {
        Some(m) => m.teardown_request_funcs@.reverse() + app.teardown_request_funcs@.reverse(),
        None => app.teardown_request_funcs@.reverse(),
    }
}

/// The handler for HTTP errors of `code`: the module's, else the application's.
pub open spec fn http_handler(app: &Pencil, req: &Request, code: u16) -> Option<FuncId> {
    match request_module(app, req) {
        Some(m) => match code_lookup(m.http_error_handlers@, code) {
            Some(h) => Some(h),
            None => code_lookup(app.http_error_handlers@, code),
        },
        None => code_lookup(app.http_error_handlers@, code),
    }
}

/// The handler for user errors described by `desc`: the module's, else the application's.
pub open spec fn user_handler(app: &Pencil, req: &Request, desc: Seq<char>) -> Option<FuncId> {
    match request_module(app, req) {
        Some(m) => match named_lookup(m.user_error_handlers@, desc) {
            Some(h) => Some(h),
            None => named_lookup(app.user_error_handlers@, desc),
        },
        None => named_lookup(app.user_error_handlers@, desc),
    }
}

pub open spec fn teardown_stage(app: &Pencil, req: &Request, i: int, error: Option<ErrorView>, resp: ResponseView) -> StageView {
    if 0 <= i < teardown_hooks(app, req).len() {
        StageView::Teardown { index: i, hook: teardown_hooks(app, req)[i], error, response: resp }
    } else {
        StageView::Done { response: resp }
    }
}

pub open spec fn post_stage(app: &Pencil, req: &Request, i: int, resp: ResponseView) -> StageView {
    if 0 <= i < after_hooks(app, req).len() {
        StageView::After { index: i, hook: after_hooks(app, req)[i], response: resp }
    } else {
        teardown_stage(app, req, 0, None, resp)
    }
}

/// Error recovery: a response goes on to the after-request hooks; an HTTP
/// error goes to its handler, else to its default page; a user error goes
/// to its handler, else it fails the request.
pub open spec fn recover_stage(app: &Pencil, req: &Request, r: Result<ResponseView, ErrorView>) -> StageView {
    match r {
        Ok(resp) => post_stage(app, req, 0, resp),
        Err(ErrorView::Http(code)) => match http_handler(app, req, code) {
            Some(h) => StageView::HttpHandler { handler: h, code },
            None => post_stage(app, req, 0, error_response_spec(code)),
        },
        Err(ErrorView::User(desc)) => match user_handler(app, req, desc) {
            Some(h) => StageView::UserHandler { handler: h, desc },
            None => StageView::Failed { error: ErrorView::User(desc) },
        },
    }
}

/// What a handler's result leads to: it is final and does not re-enter recovery.
pub open spec fn handled_stage(app: &Pencil, req: &Request, r: Result<ResponseView, ErrorView>) -> StageView {
    match r {
        Ok(resp) => post_stage(app, req, 0, resp),
        Err(e) => StageView::Failed { error: e },
    }
}

/// After a failure is logged: the Internal Server Error handler, else its default page.
pub open spec fn failure_stage(app: &Pencil, req: &Request, error: ErrorView) -> StageView {
    match http_handler(app, req, INTERNAL_SERVER_ERROR) {
        Some(h) => StageView::FailureHandler { handler: h, code: INTERNAL_SERVER_ERROR, error },
        None => teardown_stage(app, req, 0, Some(error), error_response_spec(INTERNAL_SERVER_ERROR)),
    }
}

pub open spec fn failure_handled_stage(
    app: &Pencil,
    req: &Request,
    error: ErrorView,
    r: Result<ResponseView, ErrorView>,
) -> StageView {
    match r {
        Ok(resp) => teardown_stage(app, req, 0, Some(error), resp),
        Err(_) => teardown_stage(app, req, 0, Some(error), error_response_spec(INTERNAL_SERVER_ERROR)),
    }
}

/// The value bound to the variable `filename`.
pub open spec fn filename_arg(req: &Request) -> Option<Seq<char>> {
    match view_args_view(req.view_args) {
        Some((n, v)) => if n == "filename"@ { Some(v) } else { None },
        None => None,
    }
}

/// Whether the request is answered with the automatic `OPTIONS` response.
pub open spec fn automatic_options(req: &Request) -> bool {
    match req.url_rule {
        Some(rule) => rule.provide_automatic_options && req.method == Method::Options,
        None => false,
    }
}

/// The automatic `OPTIONS` response: empty, with the allowed methods.
pub open spec fn options_response_spec(app: &Pencil, req: &Request) -> ResponseView {
    ResponseView {
        status: 200,
        headers: seq![("Allow"@, allow_header_spec(allowed_spec(app.url_map.rules@, req.path@)))],
        body: None,
    }
}

/// Dispatch: a routing error or redirect is answered at once, an automatic
/// `OPTIONS` request gets its response, and otherwise the endpoint's view
/// runs; an endpoint without a view is `Not Found`.
pub open spec fn dispatch_stage(app: &Pencil, req: &Request) -> StageView {
    match req.routing_error {
        Some(e) => recover_stage(app, req, Err(ErrorView::Http(e.code))),
        None => match req.routing_redirect {
            Some((url, code)) => recover_stage(app, req, Ok(redirect_spec(url@, code))),
            None => if automatic_options(req) {
                post_stage(app, req, 0, options_response_spec(app, req))
            } else {
                match req.url_rule {
                    None => recover_stage(app, req, Err(ErrorView::Http(NOT_FOUND))),
                    Some(rule) => match named_lookup(app.view_functions@, rule.endpoint@) {
                        None => recover_stage(app, req, Err(ErrorView::Http(NOT_FOUND))),
                        Some(ViewFunc::User(f)) => StageView::View { view: f },
                        Some(ViewFunc::AppStatic) => match filename_arg(req) {
                            Some(f) => StageView::StaticFile {
                                directory: join_spec(app.root_path@, app.static_folder@),
                                filename: f,
                            },
                            None => recover_stage(app, req, Err(ErrorView::Http(NOT_FOUND))),
                        },
                        Some(ViewFunc::ModuleStatic) => match (request_module(app, req), filename_arg(req)) {
                            (Some(m), Some(f)) => match m.static_folder {
                                Some(folder) => StageView::StaticFile {
                                    directory: join_spec(m.root_path@, folder@),
                                    filename: f,
                                },
                                None => recover_stage(app, req, Err(ErrorView::Http(NOT_FOUND))),
                            },
                            _ => recover_stage(app, req, Err(ErrorView::Http(NOT_FOUND))),
                        },
                    },
                }
            },
        },
    }
}

/// Before-request hooks from the `i`-th on, then dispatch.
pub open spec fn before_stage(app: &Pencil, req: &Request, i: int) -> StageView {
    if 0 <= i < before_hooks(app, req).len() {
        StageView::Before { index: i, hook: before_hooks(app, req)[i] }
    } else {
        dispatch_stage(app, req)
    }
}

/// What the `i`-th before-request hook's outcome leads to: the next hook,
/// or, for a result, recovery with that result.
pub open spec fn before_done_stage(
    app: &Pencil,
    req: &Request,
    i: int,
    outcome: Option<Result<ResponseView, ErrorView>>,
) -> StageView {
    match outcome {
        None => before_stage(app, req, i + 1),
        Some(r) => recover_stage(app, req, r),
    }
}

pub open spec fn opt_result_view(o: Option<Result<Response, PenError>>) -> Option<Result<ResponseView, ErrorView>> {
    match o {
        Some(r) => Some(result_view(r)),
        None => None,
    }
}

impl Pencil {
    /// The attached module of the request's endpoint.
    fn request_module_of(&self, req: &Request) -> (r: Option<&Module>)
        ensures
            match r {
                Some(m) => request_module(self, req) == Some(*m),
                None => request_module(self, req) is None,
            },
    {
        match req.module_name() {
            Some(n) => self.find_module(n.as_str()),
            None => None,
        }
    }

    fn before_hook_at(&self, req: &Request, i: usize) -> (r: Option<FuncId>)
        ensures
            r == (if i < before_hooks(self, req).len() {
                Some(before_hooks(self, req)[i as int])
            } else {
                None::<FuncId>
            }),
    {
        let m = self.request_module_of(req);
        let mlen: usize = match m {
            Some(m) => m.before_request_funcs.len(),
            None => 0,
        };
        if i < mlen {
            match m {
                Some(m) => Some(m.before_request_funcs[i]),
                None => None,
            }
        } else if i - mlen < self.before_request_funcs.len() {
            Some(self.before_request_funcs[i - mlen])
        } else {
            None
        }
    }

    fn after_hook_at(&self, req: &Request, i: usize) -> (r: Option<FuncId>)
        ensures
            r == (if i < after_hooks(self, req).len() {
                Some(after_hooks(self, req)[i as int])
            } else {
                None::<FuncId>
            }),
    {
        let m = self.request_module_of(req);
        let mlen: usize = match m {
            Some(m) => m.after_request_funcs.len(),
            None => 0,
        };
        if i < mlen {
            match m {
                Some(m) => Some(m.after_request_funcs[mlen - 1 - i]),
                None => None,
            }
        } else if i - mlen < self.after_request_funcs.len() {
            Some(self.after_request_funcs[self.after_request_funcs.len() - 1 - (i - mlen)])
        } else {
            None
        }
    }

    fn teardown_hook_at(&self, req: &Request, i: usize) -> (r: Option<FuncId>)
        ensures
            r == (if i < teardown_hooks(self, req).len() {
                Some(teardown_hooks(self, req)[i as int])
            } else {
                None::<FuncId>
            }),
    {
        let m = self.request_module_of(req);
        let mlen: usize = match m {
            Some(m) => m.teardown_request_funcs.len(),
            None => 0,
        };
        if i < mlen {
            match m {
                Some(m) => Some(m.teardown_request_funcs[mlen - 1 - i]),
                None => None,
            }
        } else if i - mlen < self.teardown_request_funcs.len() {
            Some(self.teardown_request_funcs[self.teardown_request_funcs.len() - 1 - (i - mlen)])
        } else {
            None
        }
    }

    /// The handler for HTTP errors of `code`, module scope first.
    pub fn resolve_http_handler(&self, req: &Request, code: u16) -> (r: Option<FuncId>)
        ensures
            r == http_handler(self, req, code),
    {
        if let Some(m) = self.request_module_of(req) {
            if let Some(h) = find_code(&m.http_error_handlers, code) {
                return Some(h);
            }
        }
        find_code(&self.http_error_handlers, code)
    }

    /// The handler for user errors described by `desc`, module scope first.
    pub fn resolve_user_handler(&self, req: &Request, desc: &str) -> (r: Option<FuncId>)
        ensures
            r == user_handler(self, req, desc@),
    {
        if let Some(m) = self.request_module_of(req) {
            if let Some(h) = find_named(&m.user_error_handlers, desc) {
                return Some(h);
            }
        }
        find_named(&self.user_error_handlers, desc)
    }

    fn teardown_from(&self, req: &Request, i: usize, error: Option<PenError>, response: Response) -> (r: Stage)
        ensures
            r@ == teardown_stage(self, req, i as int, opt_error_view(error), response@),
    {
        match self.teardown_hook_at(req, i) {
            Some(hook) => Stage::Teardown { index: i, hook, error, response },
            None => Stage::Done { response },
        }
    }

    fn post_from(&self, req: &Request, i: usize, response: Response) -> (r: Stage)
        ensures
            r@ == post_stage(self, req, i as int, response@),
    {
        match self.after_hook_at(req, i) {
            Some(hook) => Stage::After { index: i, hook, response },
            None => self.teardown_from(req, 0, None, response),
        }
    }

    fn recover(&self, req: &Request, result: Result<Response, PenError>) -> (r: Stage)
        ensures
            r@ == recover_stage(self, req, result_view(result)),
    {
        match result {
            Ok(response) => self.post_from(req, 0, response),
            Err(PenError::PenHTTPError(e)) => match self.resolve_http_handler(req, e.code) {
                Some(h) => Stage::HttpHandler { handler: h, error: e },
                None => self.post_from(req, 0, e.to_response()),
            },
            Err(PenError::PenUserError(e)) => match self.resolve_user_handler(req, e.desc.as_str()) {
                Some(h) => Stage::UserHandler { handler: h, error: e },
                None => Stage::Failed { error: PenError::PenUserError(e) },
            },
        }
    }

    fn not_found(&self, req: &Request) -> (r: Stage)
        ensures
            r@ == recover_stage(self, req, Err(ErrorView::Http(NOT_FOUND))),
    {
        self.recover(req, Err(PenError::PenHTTPError(HTTPError::new(NOT_FOUND))))
    }

    fn dispatch(&self, req: &Request) -> (r: Stage)
        ensures
            r@ == dispatch_stage(self, req),
    {
        if let Some(e) = &req.routing_error {
            return self.recover(req, Err(PenError::PenHTTPError(*e)));
        }
        if let Some((url, code)) = &req.routing_redirect {
            return self.recover(req, redirect(url.as_str(), *code));
        }
        let rule = match &req.url_rule {
            Some(rule) => rule,
            None => {
                return self.not_found(req);
            },
        };
        if rule.provide_automatic_options && req.method == Method::Options {
            let mut response = Response::new_empty();
            let allowed = self.url_map.allowed_methods(req.path.as_str());
            response.set_header("Allow", allow_header(&allowed));
            assert(response@.headers =~= options_response_spec(self, req).headers);
            return self.post_from(req, 0, response);
        }
        match find_named(&self.view_functions, rule.endpoint.as_str()) {
            None => self.not_found(req),
            Some(ViewFunc::User(f)) => Stage::View { view: f },
            Some(ViewFunc::AppStatic) => match req.view_arg("filename") {
                Some(filename) => Stage::StaticFile {
                    directory: join_path(self.root_path.as_str(), self.static_folder.as_str()),
                    filename,
                },
                None => self.not_found(req),
            },
            Some(ViewFunc::ModuleStatic) => {
                let m = self.request_module_of(req);
                let filename = req.view_arg("filename");
                match (m, filename) {
                    (Some(m), Some(filename)) => match &m.static_folder {
                        Some(folder) => Stage::StaticFile {
                            directory: join_path(m.root_path.as_str(), folder.as_str()),
                            filename,
                        },
                        None => self.not_found(req),
                    },
                    _ => self.not_found(req),
                }
            },
        }
    }

    fn before_from(&self, req: &Request, i: usize) -> (r: Stage)
        ensures
            r@ == before_stage(self, req, i as int),
    {
        match self.before_hook_at(req, i) {
            Some(hook) => Stage::Before { index: i, hook },
            None => self.dispatch(req),
        }
    }

    /// The first stage of a request that has been bound by `match_request`.
    pub fn start(&self, req: &Request) -> (r: Stage)
        ensures
            r@ == before_stage(self, req, 0),
    {
        self.before_from(req, 0)
    }

    /// The `index`-th before-request hook returned `outcome`.
    pub fn before_hook_done(&self, req: &Request, index: usize, outcome: Option<Result<Response, PenError>>) -> (r: Stage)
        requires
            index < usize::MAX,
        ensures
            r@ == before_done_stage(self, req, index as int, opt_result_view(outcome)),
    {
        match outcome {
            None => self.before_from(req, index + 1),
            Some(result) => self.recover(req, result),
        }
    }

    /// The view (or the static-file responder) returned `result`.
    pub fn view_done(&self, req: &Request, result: Result<Response, PenError>) -> (r: Stage)
        ensures
            r@ == recover_stage(self, req, result_view(result)),
    {
        self.recover(req, result)
    }

    /// An error handler returned `result`.
    pub fn handler_done(&self, req: &Request, result: Result<Response, PenError>) -> (r: Stage)
        ensures
            r@ == handled_stage(self, req, result_view(result)),
    {
        match result {
            Ok(response) => self.post_from(req, 0, response),
            Err(e) => Stage::Failed { error: e },
        }
    }

    /// The failure `error` has been logged.
    pub fn failure_logged(&self, req: &Request, error: PenError) -> (r: Stage)
        ensures
            r@ == failure_stage(self, req, error@),
    {
        match self.resolve_http_handler(req, INTERNAL_SERVER_ERROR) {
            Some(h) => Stage::FailureHandler { handler: h, http_error: HTTPError::new(INTERNAL_SERVER_ERROR), error },
            None => self.teardown_from(req, 0, Some(error), HTTPError::new(INTERNAL_SERVER_ERROR).to_response()),
        }
    }

    /// The Internal Server Error handler for the failure `error` returned `result`.
    pub fn failure_handler_done(&self, req: &Request, error: PenError, result: Result<Response, PenError>) -> (r: Stage)
        ensures
            r@ == failure_handled_stage(self, req, error@, result_view(result)),
    {
        match result {
            Ok(response) => self.teardown_from(req, 0, Some(error), response),
            Err(_) => self.teardown_from(req, 0, Some(error), HTTPError::new(INTERNAL_SERVER_ERROR).to_response()),
        }
    }

    /// The `index`-th after-request hook ran and handed back `response`.
    pub fn after_hook_done(&self, req: &Request, index: usize, response: Response) -> (r: Stage)
        requires
            index < usize::MAX,
        ensures
            r@ == post_stage(self, req, index + 1, response@),
    {
        self.post_from(req, index + 1, response)
    }

    /// The `index`-th teardown hook ran.
    pub fn teardown_done(&self, req: &Request, index: usize, error: Option<PenError>, response: Response) -> (r: Stage)
        requires
            index < usize::MAX,
        ensures
            r@ == teardown_stage(self, req, index + 1, opt_error_view(error), response@),
    {
        self.teardown_from(req, index + 1, error, response)
    }
}

/// Recovery never leads back to the before-request hooks or to dispatch.
pub open spec fn after_dispatch(s: StageView) -> bool {
    !(s is Before || s is View || s is StaticFile)
}

proof fn lemma_recover_after_dispatch(app: &Pencil, req: &Request, r: Result<ResponseView, ErrorView>)
    ensures
        after_dispatch(recover_stage(app, req, r)),
{
}

/// Before-request hooks run in registration order, the module's before the
/// application's; the first that returns a result ends them, and neither
/// the remaining hooks nor the view run.
pub proof fn lemma_before_request_order(app: &Pencil, req: &Request, i: int, r: Result<ResponseView, ErrorView>)
    ensures
        request_module(app, req) matches Some(m) ==> {
            &&& before_hooks(app, req).len() == m.before_request_funcs@.len() + app.before_request_funcs@.len()
            &&& forall|k: int| 0 <= k < m.before_request_funcs@.len()
                ==> before_hooks(app, req)[k] == #[trigger] m.before_request_funcs@[k]
            &&& forall|k: int| 0 <= k < app.before_request_funcs@.len()
                ==> before_hooks(app, req)[m.before_request_funcs@.len() + k] == #[trigger] app.before_request_funcs@[k]
        },
        request_module(app, req) is None ==> before_hooks(app, req) == app.before_request_funcs@,
        before_stage(app, req, 0) == (if before_hooks(app, req).len() > 0 {
            StageView::Before { index: 0, hook: before_hooks(app, req)[0] }
        } else {
            dispatch_stage(app, req)
        }),
        0 <= i ==> before_done_stage(app, req, i, None) == before_stage(app, req, i + 1),
        before_done_stage(app, req, i, Some(r)) == recover_stage(app, req, r),
        after_dispatch(before_done_stage(app, req, i, Some(r))),
{
    lemma_recover_after_dispatch(app, req, r);
}

/// After-request hooks run in reverse registration order, the module's list
/// first and then the application's: hooks registered as `a, b, c` run as
/// `c, b, a`.
pub proof fn lemma_after_request_order(app: &Pencil, req: &Request)
    ensures
        request_module(app, req) matches Some(m) ==> {
            let n = m.after_request_funcs@.len();
            let a = app.after_request_funcs@.len();
            &&& after_hooks(app, req).len() == n + a
            &&& forall|k: int| 0 <= k < n ==> #[trigger] after_hooks(app, req)[k] == m.after_request_funcs@[n - 1 - k]
            &&& forall|k: int| 0 <= k < a ==> #[trigger] after_hooks(app, req)[n + k] == app.after_request_funcs@[a - 1 - k]
        },
        request_module(app, req) is None ==> {
            let a = app.after_request_funcs@.len();
            &&& after_hooks(app, req).len() == a
            &&& forall|k: int| 0 <= k < a ==> #[trigger] after_hooks(app, req)[k] == app.after_request_funcs@[a - 1 - k]
        },
{
}

/// Teardown hooks run in reverse registration order, the module's list
/// first and then the application's.
pub proof fn lemma_teardown_order(app: &Pencil, req: &Request)
    ensures
        request_module(app, req) matches Some(m) ==> {
            let n = m.teardown_request_funcs@.len();
            let a = app.teardown_request_funcs@.len();
            &&& teardown_hooks(app, req).len() == n + a
            &&& forall|k: int| 0 <= k < n ==> #[trigger] teardown_hooks(app, req)[k] == m.teardown_request_funcs@[n - 1 - k]
            &&& forall|k: int| 0 <= k < a ==> #[trigger] teardown_hooks(app, req)[n + k] == app.teardown_request_funcs@[a - 1 - k]
        },
        request_module(app, req) is None ==> {
            let a = app.teardown_request_funcs@.len();
            &&& teardown_hooks(app, req).len() == a
            &&& forall|k: int| 0 <= k < a ==> #[trigger] teardown_hooks(app, req)[k] == app.teardown_request_funcs@[a - 1 - k]
        },
{
}

/// On a module's endpoint, an HTTP error with a module-scoped handler goes to
/// that handler, whatever the application registered for the same status;
/// an HTTP error never consults the user-error tables.
pub proof fn lemma_module_handler_first(app: &Pencil, req: &Request, m: Module, code: u16, h: FuncId)
    requires
        request_module(app, req) == Some(m),
        code_lookup(m.http_error_handlers@, code) == Some(h),
    ensures
        recover_stage(app, req, Err(ErrorView::Http(code))) == (StageView::HttpHandler { handler: h, code }),
{
}

/// A handler's error is final: it fails the request instead of going to
/// another handler.
pub proof fn lemma_handler_error_is_final(app: &Pencil, req: &Request, e: ErrorView)
    ensures
        handled_stage(app, req, Err(e)) == (StageView::Failed { error: e }),
{
}

/// A request bound to a rule whose endpoint has a user view is dispatched
/// to that view, unless it is an automatic `OPTIONS` request.
pub proof fn lemma_dispatch_to_view(app: &Pencil, req: &Request, f: FuncId)
    requires
        req.routing_error is None,
        req.routing_redirect is None,
        !automatic_options(req),
        req.url_rule matches Some(rule) && named_lookup(app.view_functions@, rule.endpoint@) == Some(ViewFunc::User(f)),
    ensures
        dispatch_stage(app, req) == (StageView::View { view: f }),
{
}

} // verus!
