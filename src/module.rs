//! Modules: named bundles of routes, hooks and error handlers that are
//! attached to an application once, under their name.
use vstd::prelude::*;
use crate::app::{Pencil, ViewFunc, has_module, rule_is, static_pattern};
use crate::routing::Rule;
use crate::registry::FuncId;
use crate::routing::{Matcher, Method, compile_spec, matcher_view, rule_methods_spec};
use crate::text::concat;

verus! {

/// An application-wide registration that a module makes once it is attached.
#[derive(Debug)]
pub enum AppCommand {
    BeforeRequest(FuncId),
    AfterRequest(FuncId),
    TeardownRequest(FuncId),
    HttpErrorHandler(u16, FuncId),
    UserErrorHandler(String, FuncId),
}

/// A route of a module, kept until the module is attached; its endpoint is
/// already namespaced.
#[derive(Debug)]
pub struct DeferredRoute {
    pub matcher: Matcher,
    pub methods: Vec<Method>,
    pub endpoint: String,
    pub view: ViewFunc,
}

/// The before-request hooks that `cs` registers, in order.
pub open spec fn cmd_befores(cs: Seq<AppCommand>) -> Seq<FuncId>
    decreases cs.len(),
{
    if cs.len() == 0 {
        Seq::empty()
    } else {
        match cs.last() {
            AppCommand::BeforeRequest(f) => cmd_befores(cs.drop_last()).push(f),
            _ => cmd_befores(cs.drop_last()),
        }
    }
}

pub open spec fn cmd_afters(cs: Seq<AppCommand>) -> Seq<FuncId>
    decreases cs.len(),
{
    if cs.len() == 0 {
        Seq::empty()
    } else {
        match cs.last() {
            AppCommand::AfterRequest(f) => cmd_afters(cs.drop_last()).push(f),
            _ => cmd_afters(cs.drop_last()),
        }
    }
}

pub open spec fn cmd_teardowns(cs: Seq<AppCommand>) -> Seq<FuncId>
    decreases cs.len(),
{
    if cs.len() == 0 {
        Seq::empty()
    } else {
        match cs.last() {
            AppCommand::TeardownRequest(f) => cmd_teardowns(cs.drop_last()).push(f),
            _ => cmd_teardowns(cs.drop_last()),
        }
    }
}

pub open spec fn cmd_http(cs: Seq<AppCommand>) -> Seq<(u16, FuncId)>
    decreases cs.len(),
{
    if cs.len() == 0 {
        Seq::empty()
    } else {
        match cs.last() {
            AppCommand::HttpErrorHandler(c, f) => cmd_http(cs.drop_last()).push((c, f)),
            _ => cmd_http(cs.drop_last()),
        }
    }
}

pub open spec fn cmd_user(cs: Seq<AppCommand>) -> Seq<(String, FuncId)>
    decreases cs.len(),
{
    if cs.len() == 0 {
        Seq::empty()
    } else {
        match cs.last() {
            AppCommand::UserErrorHandler(d, f) => cmd_user(cs.drop_last()).push((d, f)),
            _ => cmd_user(cs.drop_last()),
        }
    }
}

/// A module: its own hooks and handlers apply to its endpoints only; the
/// application-wide ones and its routes wait in the deferred lists.
#[derive(Debug)]
pub struct Module {
    pub name: String,
    pub root_path: String,
    pub static_folder: Option<String>,
    pub static_url_path: Option<String>,
    pub template_folder: Option<String>,
    pub before_request_funcs: Vec<FuncId>,
    pub after_request_funcs: Vec<FuncId>,
    pub teardown_request_funcs: Vec<FuncId>,
    pub http_error_handlers: Vec<(u16, FuncId)>,
    pub user_error_handlers: Vec<(String, FuncId)>,
    pub deferred_functions: Vec<AppCommand>,
    pub deferred_routes: Vec<DeferredRoute>,
}

/// The endpoint under which a module registers `endpoint`.
pub open spec fn namespaced(module_name: Seq<char>, endpoint: Seq<char>) -> Seq<char> {
    module_name + "."@ + endpoint
}

/// Whether `r` is the deferred form of a route with these parts.
pub open spec fn deferred_route_is(
    r: DeferredRoute,
    pattern: Seq<char>,
    methods: Seq<Method>,
    endpoint: Seq<char>,
    view: ViewFunc,
) -> bool {
    matcher_view(&r.matcher) == compile_spec(pattern) && r.methods@ == methods && r.endpoint@
        == endpoint && r.view == view
}

/// Whether `after` is `before` with only its deferred commands extended by `c`.
pub open spec fn recorded(before: Module, after: Module, c: AppCommand) -> bool {
    after.deferred_functions@ == before.deferred_functions@.push(c) && after == (Module {
        deferred_functions: after.deferred_functions,
        ..before
    })
}

impl Module {
    pub fn new(name: &str, root_path: &str) -> (r: Module)
        ensures
            r.name@ == name@,
            r.root_path@ == root_path@,
            r.static_folder is None,
            r.static_url_path is None,
            r.template_folder is None,
            r.before_request_funcs@.len() == 0,
            r.after_request_funcs@.len() == 0,
            r.teardown_request_funcs@.len() == 0,
            r.http_error_handlers@.len() == 0,
            r.user_error_handlers@.len() == 0,
            r.deferred_functions@.len() == 0,
            r.deferred_routes@.len() == 0,
    {
        Module {
            name: name.to_owned(),
            root_path: root_path.to_owned(),
            static_folder: None,
            static_url_path: None,
            template_folder: None,
            before_request_funcs: Vec::new(),
            after_request_funcs: Vec::new(),
            teardown_request_funcs: Vec::new(),
            http_error_handlers: Vec::new(),
            user_error_handlers: Vec::new(),
            deferred_functions: Vec::new(),
            deferred_routes: Vec::new(),
        }
    }

    fn record(&mut self, c: AppCommand)
        ensures
            recorded(*old(self), *final(self), c),
    {
        self.deferred_functions.push(c);
    }

    fn add_route(&mut self, rule: &str, methods: &[Method], endpoint: &str, view: ViewFunc)
        ensures
            final(self).deferred_routes@.len() == old(self).deferred_routes@.len() + 1,
            final(self).deferred_routes@.drop_last() == old(self).deferred_routes@,
            deferred_route_is(
                final(self).deferred_routes@.last(),
                rule@,
                methods@,
                namespaced(old(self).name@, endpoint@),
                view,
            ),
            *final(self) == (Module { deferred_routes: final(self).deferred_routes, ..*old(self) }),
    {
        let prefix = concat(self.name.as_str(), ".");
        let full = concat(prefix.as_str(), endpoint);
        let route = DeferredRoute {
            matcher: Matcher::new(rule),
            methods: crate::routing::copy_methods(methods),
            endpoint: full,
            view,
        };
        self.deferred_routes.push(route);
        assert(self.deferred_routes@.drop_last() =~= old(self).deferred_routes@);
    }

    /// Adds a route whose endpoint becomes `<module name>.<endpoint>` once
    /// the module is attached. The endpoint itself must hold no `.`.
    pub fn route(&mut self, rule: &str, methods: &[Method], endpoint: &str, view_func: FuncId)
        requires
            !endpoint@.contains('.'),
        ensures
            final(self).deferred_routes@.len() == old(self).deferred_routes@.len() + 1,
            final(self).deferred_routes@.drop_last() == old(self).deferred_routes@,
            deferred_route_is(
                final(self).deferred_routes@.last(),
                rule@,
                methods@,
                namespaced(old(self).name@, endpoint@),
                ViewFunc::User(view_func),
            ),
            *final(self) == (Module { deferred_routes: final(self).deferred_routes, ..*old(self) }),
    {
        self.add_route(rule, methods, endpoint, ViewFunc::User(view_func));
    }

    /// A before-request hook for this module's endpoints.
    pub fn before_request(&mut self, f: FuncId)
        ensures
            final(self).before_request_funcs@ == old(self).before_request_funcs@.push(f),
            *final(self) == (Module { before_request_funcs: final(self).before_request_funcs, ..*old(self) }),
    {
        self.before_request_funcs.push(f);
    }

    /// A before-request hook for the whole application, once attached.
    pub fn before_app_request(&mut self, f: FuncId)
        ensures
            recorded(*old(self), *final(self), AppCommand::BeforeRequest(f)),
    {
        self.record(AppCommand::BeforeRequest(f));
    }

    pub fn after_request(&mut self, f: FuncId)
        ensures
            final(self).after_request_funcs@ == old(self).after_request_funcs@.push(f),
            *final(self) == (Module { after_request_funcs: final(self).after_request_funcs, ..*old(self) }),
    {
        self.after_request_funcs.push(f);
    }

    pub fn after_app_request(&mut self, f: FuncId)
        ensures
            recorded(*old(self), *final(self), AppCommand::AfterRequest(f)),
    {
        self.record(AppCommand::AfterRequest(f));
    }

    pub fn teardown_request(&mut self, f: FuncId)
        ensures
            final(self).teardown_request_funcs@ == old(self).teardown_request_funcs@.push(f),
            *final(self) == (Module { teardown_request_funcs: final(self).teardown_request_funcs, ..*old(self) }),
    {
        self.teardown_request_funcs.push(f);
    }

    pub fn teardown_app_request(&mut self, f: FuncId)
        ensures
            recorded(*old(self), *final(self), AppCommand::TeardownRequest(f)),
    {
        self.record(AppCommand::TeardownRequest(f));
    }

    /// A handler for HTTP errors of `status_code` on this module's endpoints.
    pub fn httperrorhandler(&mut self, status_code: u16, f: FuncId)
        ensures
            final(self).http_error_handlers@ == old(self).http_error_handlers@.push((status_code, f)),
            *final(self) == (Module { http_error_handlers: final(self).http_error_handlers, ..*old(self) }),
    {
        self.http_error_handlers.push((status_code, f));
    }

    /// A handler for user errors described by `error_desc` on this module's endpoints.
    pub fn usererrorhandler(&mut self, error_desc: &str, f: FuncId)
        ensures
            final(self).user_error_handlers@.len() == old(self).user_error_handlers@.len() + 1,
            final(self).user_error_handlers@.drop_last() == old(self).user_error_handlers@,
            final(self).user_error_handlers@.last().0@ == error_desc@,
            final(self).user_error_handlers@.last().1 == f,
            *final(self) == (Module { user_error_handlers: final(self).user_error_handlers, ..*old(self) }),
    {
        self.user_error_handlers.push((error_desc.to_owned(), f));
        assert(self.user_error_handlers@.drop_last() =~= old(self).user_error_handlers@);
    }

    pub fn app_httperrorhandler(&mut self, status_code: u16, f: FuncId)
        ensures
            recorded(*old(self), *final(self), AppCommand::HttpErrorHandler(status_code, f)),
    {
        self.record(AppCommand::HttpErrorHandler(status_code, f));
    }

    pub fn app_usererrorhandler(&mut self, error_desc: &str, f: FuncId)
        ensures
            final(self).deferred_functions@.len() == old(self).deferred_functions@.len() + 1,
            final(self).deferred_functions@.drop_last() == old(self).deferred_functions@,
            final(self).deferred_functions@.last() matches AppCommand::UserErrorHandler(d, g)
                && d@ == error_desc@ && g == f,
            *final(self) == (Module { deferred_functions: final(self).deferred_functions, ..*old(self) }),
    {
        self.deferred_functions.push(AppCommand::UserErrorHandler(error_desc.to_owned(), f));
        assert(self.deferred_functions@.drop_last() =~= old(self).deferred_functions@);
    }
}

/// Whether `after` is `before` followed by the rules of `routes`.
pub open spec fn routes_added(before: Seq<Rule>, after: Seq<Rule>, routes: Seq<DeferredRoute>) -> bool {
    &&& after.len() == before.len() + routes.len()
    &&& after.subrange(0, before.len() as int) == before
    &&& forall|k: int|
        0 <= k < routes.len() ==> rule_is(
            #[trigger] after[before.len() + k],
            matcher_view(&routes[k].matcher),
            routes[k].methods@,
            routes[k].endpoint@,
        )
}

/// Whether `after` is `before` followed by the views of `routes`.
pub open spec fn views_added(
    before: Seq<(String, ViewFunc)>,
    after: Seq<(String, ViewFunc)>,
    routes: Seq<DeferredRoute>,
) -> bool {
    &&& after.len() == before.len() + routes.len()
    &&& after.subrange(0, before.len() as int) == before
    &&& forall|k: int|
        0 <= k < routes.len() ==> (#[trigger] after[before.len() + k]).0@ == routes[k].endpoint@
            && after[before.len() + k].1 == routes[k].view
}

/// Whether a module serves a static folder: both the folder and its URL path are set.
pub open spec fn serves_static(m: Module) -> bool {
    m.static_folder is Some && m.static_url_path is Some
}

/// The routes that attaching `m` adds: its deferred ones, then its static route.
pub open spec fn module_routes(m: Module, routes: Seq<DeferredRoute>) -> bool {
    if serves_static(m) {
        &&& routes.len() == m.deferred_routes@.len() + 1
        &&& routes.drop_last() == m.deferred_routes@
        &&& deferred_route_is(
            routes.last(),
            static_pattern(m.static_url_path->0@),
            seq![Method::Get],
            namespaced(m.name@, "static"@),
            ViewFunc::ModuleStatic,
        )
    } else {
        routes == m.deferred_routes@
    }
}

/// What attaching `m` makes of `before`, besides the module list.
pub open spec fn attached(m: Module, before: Pencil, after: Pencil) -> bool {
    &&& exists|routes: Seq<DeferredRoute>|
        module_routes(m, routes) && routes_added(before.url_map.rules@, after.url_map.rules@, routes)
            && views_added(before.view_functions@, after.view_functions@, routes)
    &&& after.before_request_funcs@ == before.before_request_funcs@ + cmd_befores(m.deferred_functions@)
    &&& after.after_request_funcs@ == before.after_request_funcs@ + cmd_afters(m.deferred_functions@)
    &&& after.teardown_request_funcs@ == before.teardown_request_funcs@ + cmd_teardowns(m.deferred_functions@)
    &&& after.http_error_handlers@ == before.http_error_handlers@ + cmd_http(m.deferred_functions@)
    &&& after.user_error_handlers@ == before.user_error_handlers@ + cmd_user(m.deferred_functions@)
    &&& after.modules@.len() == before.modules@.len() + 1
    &&& after.modules@.drop_last() == before.modules@
    &&& after.modules@.last().name == m.name
    &&& after.modules@.last().root_path == m.root_path
    &&& after.modules@.last().static_folder == m.static_folder
    &&& after.modules@.last().before_request_funcs == m.before_request_funcs
    &&& after.modules@.last().after_request_funcs == m.after_request_funcs
    &&& after.modules@.last().teardown_request_funcs == m.teardown_request_funcs
    &&& after.modules@.last().http_error_handlers == m.http_error_handlers
    &&& after.modules@.last().user_error_handlers == m.user_error_handlers
    &&& after.root_path == before.root_path
    &&& after.static_folder == before.static_folder
    &&& after.static_url_path == before.static_url_path
}

proof fn lemma_single_command(c: AppCommand)
    ensures
        cmd_befores(seq![c]) == (match c {
            AppCommand::BeforeRequest(f) => seq![f],
            _ => Seq::<FuncId>::empty(),
        }),
        cmd_afters(seq![c]) == (match c {
            AppCommand::AfterRequest(f) => seq![f],
            _ => Seq::<FuncId>::empty(),
        }),
        cmd_teardowns(seq![c]) == (match c {
            AppCommand::TeardownRequest(f) => seq![f],
            _ => Seq::<FuncId>::empty(),
        }),
        cmd_http(seq![c]) == (match c {
            AppCommand::HttpErrorHandler(code, f) => seq![(code, f)],
            _ => Seq::<(u16, FuncId)>::empty(),
        }),
        cmd_user(seq![c]) == (match c {
            AppCommand::UserErrorHandler(d, f) => seq![(d, f)],
            _ => Seq::<(String, FuncId)>::empty(),
        }),
{
    let cs = seq![c];
    assert(cs.drop_last() =~= Seq::<AppCommand>::empty());
    assert(cs.last() == c);
    assert(cmd_befores(cs.drop_last()) == Seq::<FuncId>::empty());
    assert(cmd_afters(cs.drop_last()) == Seq::<FuncId>::empty());
    assert(cmd_teardowns(cs.drop_last()) == Seq::<FuncId>::empty());
    assert(cmd_http(cs.drop_last()) == Seq::<(u16, FuncId)>::empty());
    assert(cmd_user(cs.drop_last()) == Seq::<(String, FuncId)>::empty());
    assert(Seq::<FuncId>::empty().push(0usize) =~= seq![0usize]);
    match c {
        AppCommand::BeforeRequest(f) => assert(Seq::<FuncId>::empty().push(f) =~= seq![f]),
        AppCommand::AfterRequest(f) => assert(Seq::<FuncId>::empty().push(f) =~= seq![f]),
        AppCommand::TeardownRequest(f) => assert(Seq::<FuncId>::empty().push(f) =~= seq![f]),
        AppCommand::HttpErrorHandler(code, f) => assert(Seq::<(u16, FuncId)>::empty().push((code, f)) =~= seq![(code, f)]),
        AppCommand::UserErrorHandler(d, f) => assert(Seq::<(String, FuncId)>::empty().push((d, f)) =~= seq![(d, f)]),
    }
}

/// Replays one deferred registration against the application.
fn apply_command(app: &mut Pencil, c: &AppCommand)
    ensures
        final(app).before_request_funcs@ == old(app).before_request_funcs@ + cmd_befores(seq![*c]),
        final(app).after_request_funcs@ == old(app).after_request_funcs@ + cmd_afters(seq![*c]),
        final(app).teardown_request_funcs@ == old(app).teardown_request_funcs@ + cmd_teardowns(seq![*c]),
        final(app).http_error_handlers@ == old(app).http_error_handlers@ + cmd_http(seq![*c]),
        final(app).user_error_handlers@ == old(app).user_error_handlers@ + cmd_user(seq![*c]),
        final(app).url_map == old(app).url_map,
        final(app).view_functions == old(app).view_functions,
        final(app).modules == old(app).modules,
        final(app).root_path == old(app).root_path,
        final(app).static_folder == old(app).static_folder,
        final(app).static_url_path == old(app).static_url_path,
{
    let ghost cs = seq![*c];
    proof {
        lemma_single_command(*c);
    }
    match c {
        AppCommand::BeforeRequest(f) => app.before_request(*f),
        AppCommand::AfterRequest(f) => app.after_request(*f),
        AppCommand::TeardownRequest(f) => app.teardown_request(*f),
        AppCommand::HttpErrorHandler(code, f) => app.register_http_error_handler(*code, *f),
        AppCommand::UserErrorHandler(d, f) => {
            app.user_error_handlers.push((d.clone(), *f));
        },
    }
    assert(app.before_request_funcs@ =~= old(app).before_request_funcs@ + cmd_befores(cs));
    assert(app.after_request_funcs@ =~= old(app).after_request_funcs@ + cmd_afters(cs));
    assert(app.teardown_request_funcs@ =~= old(app).teardown_request_funcs@ + cmd_teardowns(cs));
    assert(app.http_error_handlers@ =~= old(app).http_error_handlers@ + cmd_http(cs));
    assert(app.user_error_handlers@ =~= old(app).user_error_handlers@ + cmd_user(cs));
}

proof fn lemma_cmds_step(cs: Seq<AppCommand>, i: int)
    requires
        0 <= i < cs.len(),
    ensures
        cmd_befores(cs.subrange(0, i + 1)) == cmd_befores(cs.subrange(0, i)) + cmd_befores(seq![cs[i]]),
        cmd_afters(cs.subrange(0, i + 1)) == cmd_afters(cs.subrange(0, i)) + cmd_afters(seq![cs[i]]),
        cmd_teardowns(cs.subrange(0, i + 1)) == cmd_teardowns(cs.subrange(0, i)) + cmd_teardowns(seq![cs[i]]),
        cmd_http(cs.subrange(0, i + 1)) == cmd_http(cs.subrange(0, i)) + cmd_http(seq![cs[i]]),
        cmd_user(cs.subrange(0, i + 1)) == cmd_user(cs.subrange(0, i)) + cmd_user(seq![cs[i]]),
{
    let s = cs.subrange(0, i + 1);
    assert(s.drop_last() =~= cs.subrange(0, i));
    assert(s.last() == cs[i]);
    lemma_single_command(cs[i]);
    assert(cmd_befores(s) =~= cmd_befores(cs.subrange(0, i)) + cmd_befores(seq![cs[i]]));
    assert(cmd_afters(s) =~= cmd_afters(cs.subrange(0, i)) + cmd_afters(seq![cs[i]]));
    assert(cmd_teardowns(s) =~= cmd_teardowns(cs.subrange(0, i)) + cmd_teardowns(seq![cs[i]]));
    assert(cmd_http(s) =~= cmd_http(cs.subrange(0, i)) + cmd_http(seq![cs[i]]));
    assert(cmd_user(s) =~= cmd_user(cs.subrange(0, i)) + cmd_user(seq![cs[i]]));
}

impl Module {
    /// Attaches the module to `app`: adds its routes (and its static route),
    /// replays its application-wide registrations, and keeps it under its
    /// name. The module is consumed, so it is attached at most once.
    pub fn register(self, app: &mut Pencil)
        requires
            !has_module(old(app).modules@, self.name@),
        ensures
            attached(self, *old(app), *final(app)),
    {
        let ghost m0 = self;
        let mut this = self;
        if this.static_folder.is_some() && this.static_url_path.is_some() {
            let pattern = match &this.static_url_path {
                Some(u) => concat(u.as_str(), "/<filename:path>"),
                None => String::new(),
            };
            let ms = [Method::Get];
            assert(ms@ =~= seq![Method::Get]);
            this.add_route(pattern.as_str(), &ms, "static", ViewFunc::ModuleStatic);
        }
        let mut routes: Vec<DeferredRoute> = Vec::new();
        std::mem::swap(&mut routes, &mut this.deferred_routes);
        assert(module_routes(m0, routes@));
        let ghost rules0 = app.url_map.rules@;
        let ghost views0 = app.view_functions@;
        let mut i: usize = 0;
        while i < routes.len()
            invariant
                0 <= i <= routes@.len(),
                app.url_map.rules@.len() == rules0.len() + i,
                app.url_map.rules@.subrange(0, rules0.len() as int) == rules0,
                forall|k: int|
                    0 <= k < i ==> rule_is(
                        #[trigger] app.url_map.rules@[rules0.len() + k],
                        matcher_view(&routes@[k].matcher),
                        routes@[k].methods@,
                        routes@[k].endpoint@,
                    ),
                app.view_functions@.len() == views0.len() + i,
                app.view_functions@.subrange(0, views0.len() as int) == views0,
                forall|k: int|
                    0 <= k < i ==> (#[trigger] app.view_functions@[views0.len() + k]).0@ == routes@[k].endpoint@
                        && app.view_functions@[views0.len() + k].1 == routes@[k].view,
                app.before_request_funcs == old(app).before_request_funcs,
                app.after_request_funcs == old(app).after_request_funcs,
                app.teardown_request_funcs == old(app).teardown_request_funcs,
                app.http_error_handlers == old(app).http_error_handlers,
                app.user_error_handlers == old(app).user_error_handlers,
                app.modules == old(app).modules,
                app.root_path == old(app).root_path,
                app.static_folder == old(app).static_folder,
                app.static_url_path == old(app).static_url_path,
            decreases routes@.len() - i,
        {
            let r = &routes[i];
            let ghost before = *app;
            app.add_url_rule(r.matcher.clone(), r.methods.as_slice(), r.endpoint.as_str(), r.view);
            assert(app.url_map.rules@.subrange(0, rules0.len() as int) =~= before.url_map.rules@.subrange(0, rules0.len() as int));
            assert(app.view_functions@.subrange(0, views0.len() as int) =~= before.view_functions@.subrange(0, views0.len() as int));
            assert(app.url_map.rules@[rules0.len() + i] == app.url_map.rules@.last());
            assert forall|k: int| 0 <= k < i implies #[trigger] app.url_map.rules@[rules0.len() + k] == before.url_map.rules@[rules0.len() + k] by {
                assert(app.url_map.rules@.drop_last()[rules0.len() + k] == app.url_map.rules@[rules0.len() + k]);
            }
            assert forall|k: int| 0 <= k < i implies #[trigger] app.view_functions@[views0.len() + k] == before.view_functions@[views0.len() + k] by {
                assert(app.view_functions@.drop_last()[views0.len() + k] == app.view_functions@[views0.len() + k]);
            }
            i = i + 1;
        }
        assert(routes_added(rules0, app.url_map.rules@, routes@));
        assert(views_added(views0, app.view_functions@, routes@));
        let mut commands: Vec<AppCommand> = Vec::new();
        std::mem::swap(&mut commands, &mut this.deferred_functions);
        let ghost cs = commands@;
        assert(cs == m0.deferred_functions@);
        let ghost mid = *app;
        let mut j: usize = 0;
        assert(cs.subrange(0, 0) =~= Seq::<AppCommand>::empty());
        assert(mid.before_request_funcs@ + cmd_befores(cs.subrange(0, 0)) =~= mid.before_request_funcs@);
        assert(mid.after_request_funcs@ + cmd_afters(cs.subrange(0, 0)) =~= mid.after_request_funcs@);
        assert(mid.teardown_request_funcs@ + cmd_teardowns(cs.subrange(0, 0)) =~= mid.teardown_request_funcs@);
        assert(mid.http_error_handlers@ + cmd_http(cs.subrange(0, 0)) =~= mid.http_error_handlers@);
        assert(mid.user_error_handlers@ + cmd_user(cs.subrange(0, 0)) =~= mid.user_error_handlers@);
        while j < commands.len()
            invariant
                0 <= j <= cs.len(),
                commands@ == cs,
                app.before_request_funcs@ == mid.before_request_funcs@ + cmd_befores(cs.subrange(0, j as int)),
                app.after_request_funcs@ == mid.after_request_funcs@ + cmd_afters(cs.subrange(0, j as int)),
                app.teardown_request_funcs@ == mid.teardown_request_funcs@ + cmd_teardowns(cs.subrange(0, j as int)),
                app.http_error_handlers@ == mid.http_error_handlers@ + cmd_http(cs.subrange(0, j as int)),
                app.user_error_handlers@ == mid.user_error_handlers@ + cmd_user(cs.subrange(0, j as int)),
                app.url_map == mid.url_map,
                app.view_functions == mid.view_functions,
                app.modules == mid.modules,
                app.root_path == mid.root_path,
                app.static_folder == mid.static_folder,
                app.static_url_path == mid.static_url_path,
            decreases cs.len() - j,
        {
            proof {
                lemma_cmds_step(cs, j as int);
            }
            apply_command(app, &commands[j]);
            assert(app.before_request_funcs@ =~= mid.before_request_funcs@ + cmd_befores(cs.subrange(0, j + 1)));
            assert(app.after_request_funcs@ =~= mid.after_request_funcs@ + cmd_afters(cs.subrange(0, j + 1)));
            assert(app.teardown_request_funcs@ =~= mid.teardown_request_funcs@ + cmd_teardowns(cs.subrange(0, j + 1)));
            assert(app.http_error_handlers@ =~= mid.http_error_handlers@ + cmd_http(cs.subrange(0, j + 1)));
            assert(app.user_error_handlers@ =~= mid.user_error_handlers@ + cmd_user(cs.subrange(0, j + 1)));
            j = j + 1;
        }
        assert(cs.subrange(0, j as int) =~= cs);
        app.modules.push(this);
        assert(app.modules@.drop_last() =~= old(app).modules@);
    }
}

/// Once a module is attached, no module of the same name can be: whichever
/// of the two comes first, the second fails the precondition of `register`.
pub proof fn lemma_module_names_unique(first: Module, second: Module, before: Pencil, after: Pencil)
    requires
        first.name@ == second.name@,
        attached(first, before, after),
    ensures
        has_module(after.modules@, second.name@),
{
    let k = after.modules@.len() - 1;
    assert(after.modules@[k].name@ == second.name@);
}

/// A route added to a module named `module_name` as `endpoint` is known to
/// the application as `<module_name>.<endpoint>`.
pub proof fn lemma_namespaced_endpoint(m: Module, before: Pencil, after: Pencil, k: int)
    requires
        attached(m, before, after),
        0 <= k < m.deferred_routes@.len(),
    ensures
        after.url_map.rules@[before.url_map.rules@.len() + k].endpoint@ == m.deferred_routes@[k].endpoint@,
        after.view_functions@[before.view_functions@.len() + k].0@ == m.deferred_routes@[k].endpoint@,
        after.view_functions@[before.view_functions@.len() + k].1 == m.deferred_routes@[k].view,
{
    let routes = choose|routes: Seq<DeferredRoute>|
        module_routes(m, routes) && routes_added(before.url_map.rules@, after.url_map.rules@, routes)
            && views_added(before.view_functions@, after.view_functions@, routes);
    if serves_static(m) {
        assert(routes[k] == routes.drop_last()[k]);
    }
    assert(rule_is(after.url_map.rules@[before.url_map.rules@.len() + k], matcher_view(&routes[k].matcher), routes[k].methods@, routes[k].endpoint@));
}

} // verus!
