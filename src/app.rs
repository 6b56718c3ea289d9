//! The application: routing table, view registry, hooks, error handlers and
//! attached modules, filled while it is configured.
use vstd::prelude::*;
use crate::module::Module;
use crate::registry::FuncId;
use crate::routing::{Matcher, Method, Rule, UrlMap, matcher_view, rule_methods_spec};
use crate::text::concat;

verus! {

/// What serves an endpoint: a user view, or one of the static-file views.
#[derive(Clone, Copy, Debug, PartialEq, Eq, Structural)]
pub enum ViewFunc {
    User(FuncId),
    /// Serves the `filename` variable from the application's static folder.
    AppStatic,
    /// Serves the `filename` variable from the static folder of the endpoint's module.
    ModuleStatic,
}

/// Whether a module named `name` is attached.
pub open spec fn has_module(ms: Seq<Module>, name: Seq<char>) -> bool {
    exists|i: int| 0 <= i < ms.len() && (#[trigger] ms[i]).name@ == name
}

/// The attached module named `name`.
pub open spec fn module_lookup(ms: Seq<Module>, name: Seq<char>) -> Option<Module>
    decreases ms.len(),
{
    if ms.len() == 0 {
        None
    } else if ms.last().name@ == name {
        Some(ms.last())
    } else {
        module_lookup(ms.drop_last(), name)
    }
}

/// Whether `r` is the rule made from these parts.
pub open spec fn rule_is(
    r: Rule,
    matcher: (Seq<char>, Option<(Seq<char>, crate::routing::Converter)>),
    methods: Seq<Method>,
    endpoint: Seq<char>,
) -> bool {
    &&& matcher_view(&r.matcher) == matcher
    &&& r.methods@ == rule_methods_spec(methods)
    &&& r.endpoint@ == endpoint
    &&& r.provide_automatic_options == !methods.contains(Method::Options)
}

/// The pattern of the static-file route under `url_path`.
pub open spec fn static_pattern(url_path: Seq<char>) -> Seq<char> {
    url_path + "/<filename:path>"@
}

/// The web application.
#[derive(Debug)]
pub struct Pencil {
    pub root_path: String,
    pub name: String,
    pub static_folder: String,
    pub static_url_path: String,
    pub template_folder: String,
    pub url_map: UrlMap,
    pub modules: Vec<Module>,
    pub view_functions: Vec<(String, ViewFunc)>,
    pub before_request_funcs: Vec<FuncId>,
    pub after_request_funcs: Vec<FuncId>,
    pub teardown_request_funcs: Vec<FuncId>,
    pub http_error_handlers: Vec<(u16, FuncId)>,
    pub user_error_handlers: Vec<(String, FuncId)>,
}

/// Whether `after` is `before` with `rule` and its view added.
pub open spec fn url_rule_added(
    before: Pencil,
    after: Pencil,
    matcher: (Seq<char>, Option<(Seq<char>, crate::routing::Converter)>),
    methods: Seq<Method>,
    endpoint: Seq<char>,
    view: ViewFunc,
) -> bool {
    &&& after.url_map.rules@.len() == before.url_map.rules@.len() + 1
    &&& after.url_map.rules@.drop_last() == before.url_map.rules@
    &&& rule_is(after.url_map.rules@.last(), matcher, methods, endpoint)
    &&& after.view_functions@.len() == before.view_functions@.len() + 1
    &&& after.view_functions@.drop_last() == before.view_functions@
    &&& after.view_functions@.last().0@ == endpoint
    &&& after.view_functions@.last().1 == view
    &&& after == (Pencil { url_map: after.url_map, view_functions: after.view_functions, ..before })
}

impl Pencil {
    pub fn new(root_path: &str) -> (r: Pencil)
        ensures
            r.root_path@ == root_path@,
            r.name@ == root_path@,
            r.static_folder@ == "static"@,
            r.static_url_path@ == "/static"@,
            r.template_folder@ == "templates"@,
            r.url_map.rules@.len() == 0,
            r.modules@.len() == 0,
            r.view_functions@.len() == 0,
            r.before_request_funcs@.len() == 0,
            r.after_request_funcs@.len() == 0,
            r.teardown_request_funcs@.len() == 0,
            r.http_error_handlers@.len() == 0,
            r.user_error_handlers@.len() == 0,
    {
        Pencil {
            root_path: root_path.to_owned(),
            name: root_path.to_owned(),
            static_folder: String::from_str("static"),
            static_url_path: String::from_str("/static"),
            template_folder: String::from_str("templates"),
            url_map: UrlMap::new(),
            modules: Vec::new(),
            view_functions: Vec::new(),
            before_request_funcs: Vec::new(),
            after_request_funcs: Vec::new(),
            teardown_request_funcs: Vec::new(),
            http_error_handlers: Vec::new(),
            user_error_handlers: Vec::new(),
        }
    }

    pub fn is_debug(&self) -> (r: bool)
        ensures
            !r,
    {
        false
    }

    pub fn is_testing(&self) -> (r: bool)
        ensures
            !r,
    {
        false
    }

    /// Adds a rule for `matcher` and registers `view` under `endpoint`.
    pub fn add_url_rule(&mut self, matcher: Matcher, methods: &[Method], endpoint: &str, view: ViewFunc)
        ensures
            url_rule_added(*old(self), *final(self), matcher_view(&matcher), methods@, endpoint@, view),
    {
        let ghost mv = matcher_view(&matcher);
        let rule = Rule::new(matcher, methods, endpoint);
        self.url_map.add(rule);
        self.view_functions.push((endpoint.to_owned(), view));
        assert(self.url_map.rules@.drop_last() =~= old(self).url_map.rules@);
        assert(self.view_functions@.drop_last() =~= old(self).view_functions@);
    }

    /// Routes requests for the pattern `rule` and `methods` to `view_func`.
    pub fn route(&mut self, rule: &str, methods: &[Method], endpoint: &str, view_func: FuncId)
        ensures
            url_rule_added(
                *old(self),
                *final(self),
                crate::routing::compile_spec(rule@),
                methods@,
                endpoint@,
                ViewFunc::User(view_func),
            ),
    {
        self.add_url_rule(Matcher::new(rule), methods, endpoint, ViewFunc::User(view_func));
    }

    pub fn get(&mut self, rule: &str, endpoint: &str, view_func: FuncId)
        ensures
            url_rule_added(*old(self), *final(self), crate::routing::compile_spec(rule@), seq![Method::Get], endpoint@, ViewFunc::User(view_func)),
    {
        let ms = [Method::Get];
        assert(ms@ =~= seq![Method::Get]);
        self.route(rule, &ms, endpoint, view_func);
    }

    pub fn post(&mut self, rule: &str, endpoint: &str, view_func: FuncId)
        ensures
            url_rule_added(*old(self), *final(self), crate::routing::compile_spec(rule@), seq![Method::Post], endpoint@, ViewFunc::User(view_func)),
    {
        let ms = [Method::Post];
        assert(ms@ =~= seq![Method::Post]);
        self.route(rule, &ms, endpoint, view_func);
    }

    pub fn delete(&mut self, rule: &str, endpoint: &str, view_func: FuncId)
        ensures
            url_rule_added(*old(self), *final(self), crate::routing::compile_spec(rule@), seq![Method::Delete], endpoint@, ViewFunc::User(view_func)),
    {
        let ms = [Method::Delete];
        assert(ms@ =~= seq![Method::Delete]);
        self.route(rule, &ms, endpoint, view_func);
    }

    pub fn patch(&mut self, rule: &str, endpoint: &str, view_func: FuncId)
        ensures
            url_rule_added(*old(self), *final(self), crate::routing::compile_spec(rule@), seq![Method::Patch], endpoint@, ViewFunc::User(view_func)),
    {
        let ms = [Method::Patch];
        assert(ms@ =~= seq![Method::Patch]);
        self.route(rule, &ms, endpoint, view_func);
    }

    pub fn put(&mut self, rule: &str, endpoint: &str, view_func: FuncId)
        ensures
            url_rule_added(*old(self), *final(self), crate::routing::compile_spec(rule@), seq![Method::Put], endpoint@, ViewFunc::User(view_func)),
    {
        let ms = [Method::Put];
        assert(ms@ =~= seq![Method::Put]);
        self.route(rule, &ms, endpoint, view_func);
    }

    /// Serves the static folder under the static URL path, as endpoint `static`.
    pub fn enable_static_file_handling(&mut self)
        ensures
            url_rule_added(
                *old(self),
                *final(self),
                crate::routing::compile_spec(static_pattern(old(self).static_url_path@)),
                seq![Method::Get],
                "static"@,
                ViewFunc::AppStatic,
            ),
    {
        let pattern = concat(self.static_url_path.as_str(), "/<filename:path>");
        let ms = [Method::Get];
        assert(ms@ =~= seq![Method::Get]);
        self.add_url_rule(Matcher::new(pattern.as_str()), &ms, "static", ViewFunc::AppStatic);
    }

    /// Attaches `module`; no module of the same name may be attached already.
    pub fn register_module(&mut self, module: Module)
        requires
            !has_module(old(self).modules@, module.name@),
        ensures
            crate::module::attached(module, *old(self), *final(self)),
    {
        module.register(self);
    }

    pub fn before_request(&mut self, f: FuncId)
        ensures
            final(self).before_request_funcs@ == old(self).before_request_funcs@.push(f),
            *final(self) == (Pencil { before_request_funcs: final(self).before_request_funcs, ..*old(self) }),
    {
        self.before_request_funcs.push(f);
    }

    pub fn after_request(&mut self, f: FuncId)
        ensures
            final(self).after_request_funcs@ == old(self).after_request_funcs@.push(f),
            *final(self) == (Pencil { after_request_funcs: final(self).after_request_funcs, ..*old(self) }),
    {
        self.after_request_funcs.push(f);
    }

    pub fn teardown_request(&mut self, f: FuncId)
        ensures
            final(self).teardown_request_funcs@ == old(self).teardown_request_funcs@.push(f),
            *final(self) == (Pencil { teardown_request_funcs: final(self).teardown_request_funcs, ..*old(self) }),
    {
        self.teardown_request_funcs.push(f);
    }

    pub fn register_http_error_handler(&mut self, status_code: u16, f: FuncId)
        ensures
            final(self).http_error_handlers@ == old(self).http_error_handlers@.push((status_code, f)),
            *final(self) == (Pencil { http_error_handlers: final(self).http_error_handlers, ..*old(self) }),
    {
        self.http_error_handlers.push((status_code, f));
    }

    pub fn register_user_error_handler(&mut self, error_desc: &str, f: FuncId)
        ensures
            final(self).user_error_handlers@.len() == old(self).user_error_handlers@.len() + 1,
            final(self).user_error_handlers@.drop_last() == old(self).user_error_handlers@,
            final(self).user_error_handlers@.last().0@ == error_desc@,
            final(self).user_error_handlers@.last().1 == f,
            *final(self) == (Pencil { user_error_handlers: final(self).user_error_handlers, ..*old(self) }),
    {
        self.user_error_handlers.push((error_desc.to_owned(), f));
        assert(self.user_error_handlers@.drop_last() =~= old(self).user_error_handlers@);
    }

    pub fn httperrorhandler(&mut self, status_code: u16, f: FuncId)
        ensures
            final(self).http_error_handlers@ == old(self).http_error_handlers@.push((status_code, f)),
            *final(self) == (Pencil { http_error_handlers: final(self).http_error_handlers, ..*old(self) }),
    {
        self.register_http_error_handler(status_code, f);
    }

    pub fn usererrorhandler(&mut self, error_desc: &str, f: FuncId)
        ensures
            final(self).user_error_handlers@.len() == old(self).user_error_handlers@.len() + 1,
            final(self).user_error_handlers@.drop_last() == old(self).user_error_handlers@,
            final(self).user_error_handlers@.last().0@ == error_desc@,
            final(self).user_error_handlers@.last().1 == f,
            *final(self) == (Pencil { user_error_handlers: final(self).user_error_handlers, ..*old(self) }),
    {
        self.register_user_error_handler(error_desc, f);
    }

    /// The attached module named `name`.
    pub fn find_module(&self, name: &str) -> (r: Option<&Module>)
        ensures
            match r {
                Some(m) => module_lookup(self.modules@, name@) == Some(*m),
                None => module_lookup(self.modules@, name@) is None,
            },
    {
        let key = name.to_owned();
        let mut i: usize = self.modules.len();
        assert(self.modules@.subrange(0, i as int) =~= self.modules@);
        while i > 0
            invariant
                0 <= i <= self.modules@.len(),
                key@ == name@,
                module_lookup(self.modules@.subrange(0, i as int), name@) == module_lookup(self.modules@, name@),
            decreases i,
        {
            assert(self.modules@.subrange(0, i as int).drop_last() =~= self.modules@.subrange(0, i - 1));
            assert(self.modules@.subrange(0, i as int).last() == self.modules@[i - 1]);
            if self.modules[i - 1].name == key {
                return Some(&self.modules[i - 1]);
            }
            i = i - 1;
        }
        None
    }

    /// The attached module named `module_name`, if there is a name.
    pub fn get_module(&self, module_name: Option<String>) -> (r: Option<&Module>)
        ensures
            match module_name {
                Some(n) => match r {
                    Some(m) => module_lookup(self.modules@, n@) == Some(*m),
                    None => module_lookup(self.modules@, n@) is None,
                },
                None => r is None,
            },
    {
        match module_name {
            Some(name) => self.find_module(name.as_str()),
            None => None,
        }
    }
}

} // verus!
