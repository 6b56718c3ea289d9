//! URL rules and the binding of a request path to them.
use vstd::prelude::*;
use crate::text::{concat, str_eq, starts_with, starts_with_spec};
use crate::types::{HTTPError, METHOD_NOT_ALLOWED, NOT_FOUND};

verus! {

/// An HTTP request method.
#[derive(Clone, Copy, Debug, PartialEq, Eq, Structural)]
pub enum Method {
    Options,
    Get,
    Post,
    Put,
    Delete,
    Head,
    Trace,
    Connect,
    Patch,
}

pub open spec fn method_name_spec(m: Method) -> &'static str {
    match m {
        Method::Options => "OPTIONS",
        Method::Get => "GET",
        Method::Post => "POST",
        Method::Put => "PUT",
        Method::Delete => "DELETE",
        Method::Head => "HEAD",
        Method::Trace => "TRACE",
        Method::Connect => "CONNECT",
        Method::Patch => "PATCH",
    }
}

impl Method {
    pub fn name(&self) -> (r: &'static str)
        ensures
            r == method_name_spec(*self),
    {
        match self {
            Method::Options => "OPTIONS",
            Method::Get => "GET",
            Method::Post => "POST",
            Method::Put => "PUT",
            Method::Delete => "DELETE",
            Method::Head => "HEAD",
            Method::Trace => "TRACE",
            Method::Connect => "CONNECT",
            Method::Patch => "PATCH",
        }
    }
}

/// How much of a path a trailing variable takes.
#[derive(Clone, Copy, Debug, PartialEq, Eq, Structural)]
pub enum Converter {
    /// One non-empty segment, without `/`.
    Segment,
    /// The non-empty rest of the path, `/` included.
    Path,
}

/// A URL pattern: a literal prefix, optionally followed by one variable that
/// takes the rest of the path.
#[derive(Debug)]
pub struct Matcher {
    pub prefix: String,
    pub variable: Option<(String, Converter)>,
}

/// The binding that `m` makes of `path`, if it accepts it: `None` where it
/// does not, `Some(None)` for a literal match, `Some(Some((name, value)))`
/// for a match through the variable.
pub open spec fn match_spec(m: &Matcher, path: Seq<char>) -> Option<Option<(Seq<char>, Seq<char>)>> {
    match m.variable {
        None => if path == m.prefix@ { Some(None) } else { None },
        Some((name, conv)) => {
            let rest = path.subrange(m.prefix@.len() as int, path.len() as int);
            if starts_with_spec(path, m.prefix@) && rest.len() > 0 && (conv == Converter::Path
                || !rest.contains('/')) {
                Some(Some((name@, rest)))
            } else {
                None
            }
        },
    }
}

pub open spec fn accepts(m: &Matcher, path: Seq<char>) -> bool {
    match_spec(m, path) is Some
}

/// The first position of `c` in `s`, or `s.len()` where it does not occur.
pub open spec fn first_index_of(s: Seq<char>, c: char) -> int
    decreases s.len(),
{
    if s.len() == 0 {
        0
    } else if s[0] == c {
        0
    } else {
        1 + first_index_of(s.drop_first(), c)
    }
}

/// The last position of `c` in `s`, or `-1` where it does not occur.
pub open spec fn last_index_of(s: Seq<char>, c: char) -> int
    decreases s.len(),
{
    if s.len() == 0 {
        -1
    } else if s.last() == c {
        s.len() - 1
    } else {
        last_index_of(s.drop_last(), c)
    }
}

/// The matcher written as `pattern`: a pattern that ends in `<name>` or
/// `<name:converter>` has a variable there (`path` takes the rest of the
/// path, any other converter one segment); any other is literal.
pub open spec fn compile_spec(pattern: Seq<char>) -> (Seq<char>, Option<(Seq<char>, Converter)>) {
    let k = last_index_of(pattern, '<');
    if pattern.len() > 0 && pattern.last() == '>' && k >= 0 {
        let inner = pattern.subrange(k + 1, pattern.len() - 1);
        let j = first_index_of(inner, ':');
        let name = inner.subrange(0, j);
        let conv = if j < inner.len() && inner.subrange(j + 1, inner.len() as int) == "path"@ {
            Converter::Path
        } else {
            Converter::Segment
        };
        (pattern.subrange(0, k), Some((name, conv)))
    } else {
        (pattern, None)
    }
}

pub open spec fn matcher_view(m: &Matcher) -> (Seq<char>, Option<(Seq<char>, Converter)>) {
    (m.prefix@, match m.variable {
        Some((n, c)) => Some((n@, c)),
        None => None,
    })
}

proof fn lemma_last_index_of(s: Seq<char>, c: char)
    ensures
        -1 <= last_index_of(s, c) < s.len(),
        last_index_of(s, c) >= 0 ==> s[last_index_of(s, c)] == c,
    decreases s.len(),
{
    if s.len() > 0 && s.last() != c {
        lemma_last_index_of(s.drop_last(), c);
    }
}

pub fn last_index(s: &str, c: char) -> (r: Option<usize>)
    ensures
        match r {
            Some(i) => i == last_index_of(s@, c) && i < s@.len(),
            None => last_index_of(s@, c) == -1,
        },
{
    let mut i: usize = s.unicode_len();
    assert(s@.subrange(0, i as int) =~= s@);
    while i > 0
        invariant
            0 <= i <= s@.len(),
            last_index_of(s@, c) == last_index_of(s@.subrange(0, i as int), c),
        decreases i,
    {
        assert(s@.subrange(0, i as int).drop_last() =~= s@.subrange(0, i - 1));
        if s.get_char(i - 1) == c {
            return Some(i - 1);
        }
        i = i - 1;
    }
    None
}

fn first_index(s: &str, c: char) -> (r: usize)
    ensures
        r == first_index_of(s@, c),
        r <= s@.len(),
{
    let n = s.unicode_len();
    let mut i: usize = 0;
    assert(s@.subrange(0, n as int) =~= s@);
    while i < n
        invariant
            n == s@.len(),
            0 <= i <= n,
            first_index_of(s@, c) == i + first_index_of(s@.subrange(i as int, n as int), c),
        decreases n - i,
    {
        assert(s@.subrange(i as int, n as int).drop_first() =~= s@.subrange(i + 1, n as int));
        if s.get_char(i) == c {
            return i;
        }
        i = i + 1;
    }
    i
}

impl Matcher {
    /// Compiles a pattern such as `/post` or `/static/<filename:path>`.
    pub fn new(pattern: &str) -> (r: Matcher)
        ensures
            matcher_view(&r) == compile_spec(pattern@),
    {
        let n = pattern.unicode_len();
        if n > 0 && pattern.get_char(n - 1) == '>' {
            if let Some(k) = last_index(pattern, '<') {
                proof {
                    lemma_last_index_of(pattern@, '<');
                }
                let inner = pattern.substring_char(k + 1, n - 1);
                let j = first_index(inner, ':');
                let name = inner.substring_char(0, j);
                let m = inner.unicode_len();
                let conv = if j < m && str_eq(inner.substring_char(j + 1, m), "path") {
                    Converter::Path
                } else {
                    Converter::Segment
                };
                return Matcher {
                    prefix: pattern.substring_char(0, k).to_owned(),
                    variable: Some((name.to_owned(), conv)),
                };
            }
        }
        Matcher { prefix: pattern.to_owned(), variable: None }
    }

    /// The binding of `path`, as `match_spec` gives it.
    pub fn bind(&self, path: &str) -> (r: Option<Option<(String, String)>>)
        ensures
            match (r, match_spec(self, path@)) {
                (None, None) => true,
                (Some(None), Some(None)) => true,
                (Some(Some((n, v))), Some(Some((sn, sv)))) => n@ == sn && v@ == sv,
                _ => false,
            },
    {
        match &self.variable {
            None => if str_eq(path, self.prefix.as_str()) {
                Some(None)
            } else {
                None
            },
            Some((name, conv)) => {
                let n = path.unicode_len();
                let p = self.prefix.as_str().unicode_len();
                if !starts_with(path, self.prefix.as_str()) || p >= n {
                    return None;
                }
                let rest = path.substring_char(p, n);
                if *conv == Converter::Segment && crate::text::contains_char(rest, '/') {
                    return None;
                }
                Some(Some((name.clone(), rest.to_owned())))
            },
        }
    }
}

/// The methods that a rule allows for the ones it was given: `HEAD` joins
/// `GET`, and `OPTIONS` is added where it is missing.
pub open spec fn rule_methods_spec(ms: Seq<Method>) -> Seq<Method> {
    let with_head = if ms.contains(Method::Get) && !ms.contains(Method::Head) {
        ms.push(Method::Head)
    } else {
        ms
    };
    if ms.contains(Method::Options) {
        with_head
    } else {
        with_head.push(Method::Options)
    }
}

/// A routing rule: a matcher, the methods it allows and its endpoint.
#[derive(Debug)]
pub struct Rule {
    pub matcher: Matcher,
    pub methods: Vec<Method>,
    pub endpoint: String,
    /// Whether `OPTIONS` requests are answered without calling the view.
    pub provide_automatic_options: bool,
}

proof fn lemma_push_contains<A>(s: Seq<A>, a: A)
    ensures
        forall|x: A| #[trigger] s.push(a).contains(x) <==> (s.contains(x) || x == a),
{
    assert forall|x: A| #[trigger] s.push(a).contains(x) <==> (s.contains(x) || x == a) by {
        if s.contains(x) {
            let t = choose|t: int| 0 <= t < s.len() && s[t] == x;
            assert(s.push(a)[t] == x);
        }
        if x == a {
            assert(s.push(a)[s.len() as int] == a);
        }
        if s.push(a).contains(x) && x != a {
            let t = choose|t: int| 0 <= t < s.len() + 1 && s.push(a)[t] == x;
            assert(s[t] == x);
        }
    }
}

fn contains_method(ms: &Vec<Method>, m: Method) -> (r: bool)
    ensures
        r == ms@.contains(m),
{
    let mut i: usize = 0;
    while i < ms.len()
        invariant
            0 <= i <= ms.len(),
            forall|j: int| 0 <= j < i ==> ms@[j] != m,
        decreases ms.len() - i,
    {
        if ms[i] == m {
            assert(ms@[i as int] == m);
            return true;
        }
        i = i + 1;
    }
    false
}

/// The methods of a slice, as a vector.
pub fn copy_methods(methods: &[Method]) -> (r: Vec<Method>)
    ensures
        r@ == methods@,
{
    let mut r: Vec<Method> = Vec::new();
    let mut i: usize = 0;
    while i < methods.len()
        invariant
            0 <= i <= methods@.len(),
            r@ == methods@.subrange(0, i as int),
        decreases methods@.len() - i,
    {
        r.push(methods[i]);
        i = i + 1;
    }
    assert(r@ =~= methods@);
    r
}

impl Rule {
    pub fn new(matcher: Matcher, methods: &[Method], endpoint: &str) -> (r: Rule)
        ensures
            matcher_view(&r.matcher) == matcher_view(&matcher),
            r.methods@ == rule_methods_spec(methods@),
            r.endpoint@ == endpoint@,
            r.provide_automatic_options == !methods@.contains(Method::Options),
    {
        let mut ms = copy_methods(methods);
        let has_options = contains_method(&ms, Method::Options);
        if contains_method(&ms, Method::Get) && !contains_method(&ms, Method::Head) {
            ms.push(Method::Head);
        }
        if !has_options {
            ms.push(Method::Options);
        }
        Rule { matcher, methods: ms, endpoint: endpoint.to_owned(), provide_automatic_options: !has_options }
    }
}

impl Clone for Matcher {
    fn clone(&self) -> (r: Matcher)
        ensures
            matcher_view(&r) == matcher_view(self),
    {
        let variable = match &self.variable {
            Some((n, c)) => Some((n.clone(), *c)),
            None => None,
        };
        Matcher { prefix: self.prefix.clone(), variable }
    }
}

impl Clone for Rule {
    fn clone(&self) -> (r: Rule)
        ensures
            matcher_view(&r.matcher) == matcher_view(&self.matcher),
            r.methods@ == self.methods@,
            r.endpoint@ == self.endpoint@,
            r.provide_automatic_options == self.provide_automatic_options,
    {
        Rule {
            matcher: self.matcher.clone(),
            methods: self.methods.clone(),
            endpoint: self.endpoint.clone(),
            provide_automatic_options: self.provide_automatic_options,
        }
    }
}

/// Whether rule `r` accepts `path` for method `m`.
pub open spec fn allows(r: Rule, path: Seq<char>, m: Method) -> bool {
    accepts(&r.matcher, path) && r.methods@.contains(m)
}

pub open spec fn any_allows(rules: Seq<Rule>, path: Seq<char>, m: Method) -> bool {
    exists|i: int| 0 <= i < rules.len() && allows(#[trigger] rules[i], path, m)
}

pub open spec fn any_accepts(rules: Seq<Rule>, path: Seq<char>) -> bool {
    exists|i: int| 0 <= i < rules.len() && accepts(&(#[trigger] rules[i]).matcher, path)
}

/// The address that a path missing its trailing slash is redirected to.
pub open spec fn slash_target(path: Seq<char>, query: Option<Seq<char>>) -> Seq<char> {
    match query {
        Some(q) => path + "/"@ + "?"@ + q,
        None => path + "/"@,
    }
}

pub const SLASH_REDIRECT: u16 = 301;

/// Whether no rule takes `path` for `m` but one takes it with a trailing slash.
pub open spec fn redirects(rules: Seq<Rule>, path: Seq<char>, m: Method) -> bool {
    !any_allows(rules, path, m) && !(path.len() > 0 && path.last() == '/') && any_allows(
        rules,
        path + "/"@,
        m,
    )
}

/// The outcome of binding a request as plain values.
pub ghost enum OutcomeView {
    Rule(int, Option<(Seq<char>, Seq<char>)>),
    Redirect(Seq<char>, u16),
    Error(u16),
}

/// The binding of `path` and `m` against `rules`: the first rule that takes
/// both, else a redirect to the path with a trailing slash where a rule takes
/// that, else `Method Not Allowed` where a rule takes the path alone, else
/// `Not Found`.
pub open spec fn bind_spec(
    rules: Seq<Rule>,
    path: Seq<char>,
    query: Option<Seq<char>>,
    m: Method,
    o: OutcomeView,
) -> bool {
    match o {
        OutcomeView::Rule(i, b) => 0 <= i < rules.len() && allows(rules[i], path, m) && (forall|j: int|
            0 <= j < i ==> !allows(#[trigger] rules[j], path, m)) && match_spec(&rules[i].matcher, path)
            == Some(b),
        OutcomeView::Redirect(url, code) => redirects(rules, path, m) && url == slash_target(
            path,
            query,
        ) && code == SLASH_REDIRECT,
        OutcomeView::Error(code) => !any_allows(rules, path, m) && !redirects(rules, path, m) && code
            == (if any_accepts(rules, path) {
            METHOD_NOT_ALLOWED
        } else {
            NOT_FOUND
        }),
    }
}

/// What binding a request gives.
#[derive(Debug)]
pub enum MatchOutcome {
    MatchedRule(usize, Option<(String, String)>),
    MatchedRedirect(String, u16),
    MatchedError(HTTPError),
}

impl View for MatchOutcome {
    type V = OutcomeView;

    open spec fn view(&self) -> OutcomeView {
        match self {
            MatchOutcome::MatchedRule(i, b) => OutcomeView::Rule(
                *i as int,
                match b {
                    Some((n, v)) => Some((n@, v@)),
                    None => None,
                },
            ),
            MatchOutcome::MatchedRedirect(u, c) => OutcomeView::Redirect(u@, *c),
            MatchOutcome::MatchedError(e) => OutcomeView::Error(e.code),
        }
    }
}

/// The routing table: rules in order of registration.
#[derive(Debug)]
pub struct UrlMap {
    pub rules: Vec<Rule>,
}

impl UrlMap {
    pub fn new() -> (r: UrlMap)
        ensures
            r.rules@.len() == 0,
    {
        UrlMap { rules: Vec::new() }
    }

    pub fn add(&mut self, rule: Rule)
        ensures
            final(self).rules@ == old(self).rules@.push(rule),
    {
        self.rules.push(rule);
    }

    /// The first rule that takes `path` for `m`.
    fn first_allowing(&self, path: &str, m: Method) -> (r: Option<(usize, Option<(String, String)>)>)
        ensures
            match r {
                Some((i, b)) => bind_spec(
                    self.rules@,
                    path@,
                    None,
                    m,
                    MatchOutcome::MatchedRule(i, b)@,
                ),
                None => !any_allows(self.rules@, path@, m),
            },
    {
        let mut i: usize = 0;
        while i < self.rules.len()
            invariant
                0 <= i <= self.rules@.len(),
                forall|j: int| 0 <= j < i ==> !allows(#[trigger] self.rules@[j], path@, m),
            decreases self.rules@.len() - i,
        {
            let rule = &self.rules[i];
            if let Some(b) = rule.matcher.bind(path) {
                if contains_method(&rule.methods, m) {
                    return Some((i, b));
                }
            }
            i = i + 1;
        }
        None
    }

    fn any_accepting(&self, path: &str) -> (r: bool)
        ensures
            r == any_accepts(self.rules@, path@),
    {
        let mut i: usize = 0;
        while i < self.rules.len()
            invariant
                0 <= i <= self.rules@.len(),
                forall|j: int| 0 <= j < i ==> !accepts(&(#[trigger] self.rules@[j]).matcher, path@),
            decreases self.rules@.len() - i,
        {
            if self.rules[i].matcher.bind(path).is_some() {
                return true;
            }
            i = i + 1;
        }
        false
    }

    /// Binds a request path, its query and its method to the table.
    pub fn bind(&self, path: &str, query: Option<&str>, m: Method) -> (r: MatchOutcome)
        ensures
            bind_spec(
                self.rules@,
                path@,
                match query {
                    Some(q) => Some(q@),
                    None => None,
                },
                m,
                r@,
            ),
    {
        if let Some((i, b)) = self.first_allowing(path, m) {
            return MatchOutcome::MatchedRule(i, b);
        }
        let n = path.unicode_len();
        if !(n > 0 && path.get_char(n - 1) == '/') {
            let slashed = concat(path, "/");
            if self.first_allowing(slashed.as_str(), m).is_some() {
                let target = match query {
                    Some(q) => {
                        let with_mark = concat(slashed.as_str(), "?");
                        concat(with_mark.as_str(), q)
                    },
                    None => slashed,
                };
                return MatchOutcome::MatchedRedirect(target, SLASH_REDIRECT);
            }
        }
        if self.any_accepting(path) {
            MatchOutcome::MatchedError(HTTPError::new(METHOD_NOT_ALLOWED))
        } else {
            MatchOutcome::MatchedError(HTTPError::new(NOT_FOUND))
        }
    }

    /// Every method that some rule accepting `path` allows, each once.
    pub fn allowed_methods(&self, path: &str) -> (r: Vec<Method>)
        ensures
            forall|m: Method|
                r@.contains(m) <==> (exists|i: int|
                    0 <= i < self.rules@.len() && allows(#[trigger] self.rules@[i], path@, m)),
            r@.no_duplicates(),
            r@ == allowed_spec(self.rules@, path@),
    {
        let mut r: Vec<Method> = Vec::new();
        assert(self.rules@.subrange(0, 0) =~= Seq::<Rule>::empty());
        let mut i: usize = 0;
        while i < self.rules.len()
            invariant
                0 <= i <= self.rules@.len(),
                r@.no_duplicates(),
                r@ == allowed_spec(self.rules@.subrange(0, i as int), path@),
                forall|m: Method|
                    r@.contains(m) <==> (exists|j: int|
                        0 <= j < i && allows(#[trigger] self.rules@[j], path@, m)),
            decreases self.rules@.len() - i,
        {
            let rule = &self.rules[i];
            let ghost r0 = r@;
            assert(self.rules@.subrange(0, i + 1).drop_last() =~= self.rules@.subrange(0, i as int));
            assert(self.rules@.subrange(0, i + 1).last() == self.rules@[i as int]);
            if rule.matcher.bind(path).is_some() {
                let mut k: usize = 0;
                assert(rule.methods@.subrange(0, 0) =~= Seq::<Method>::empty());
                while k < rule.methods.len()
                    invariant
                        0 <= k <= rule.methods@.len(),
                        i < self.rules@.len(),
                        rule == &self.rules@[i as int],
                        r@ == add_new_methods(r0, rule.methods@.subrange(0, k as int)),
                        accepts(&rule.matcher, path@),
                        r@.no_duplicates(),
                        forall|m: Method|
                            r@.contains(m) <==> ((exists|j: int|
                                0 <= j < i && allows(#[trigger] self.rules@[j], path@, m)) || rule.methods@.subrange(0, k as int).contains(m)),
                    decreases rule.methods@.len() - k,
                {
                    let m = rule.methods[k];
                    let ghost old_r = r@;
                    assert(rule.methods@.subrange(0, k + 1).drop_last() =~= rule.methods@.subrange(0, k as int));
                    if !contains_method(&r, m) {
                        r.push(m);
                        proof {
                            assert forall|a: int, b: int| 0 <= a < b < r@.len() implies r@[a] != r@[b] by {
                                if b == r@.len() - 1 {
                                    assert(old_r[a] == r@[a]);
                                }
                            }
                        }
                    }
                    proof {
                        lemma_push_contains(old_r, m);
                        assert forall|x: Method| r@.contains(x) <==> (old_r.contains(x) || x == m) by {
                            if r@ != old_r {
                                assert(r@ == old_r.push(m));
                            }
                        }
                        assert(rule.methods@.subrange(0, k + 1) =~= rule.methods@.subrange(0, k as int).push(m));
                        lemma_push_contains(rule.methods@.subrange(0, k as int), m);
                    }
                    k = k + 1;
                }
                assert(rule.methods@.subrange(0, k as int) =~= rule.methods@);
                assert forall|m: Method| r@.contains(m) <==> (exists|j: int|
                        0 <= j < i + 1 && allows(#[trigger] self.rules@[j], path@, m)) by {
                    if allows(self.rules@[i as int], path@, m) {
                        assert(rule.methods@.contains(m));
                    }
                }
            } else {
                assert forall|m: Method| r@.contains(m) <==> (exists|j: int|
                        0 <= j < i + 1 && allows(#[trigger] self.rules@[j], path@, m)) by {
                    if (exists|j: int| 0 <= j < i + 1 && allows(#[trigger] self.rules@[j], path@, m)) {
                        let j = choose|j: int| 0 <= j < i + 1 && allows(#[trigger] self.rules@[j], path@, m);
                        assert(j != i);
                    }
                }
            }
            i = i + 1;
        }
        assert(self.rules@.subrange(0, i as int) =~= self.rules@);
        r
    }
}

/// `acc` followed by the methods of `ms` that it does not hold yet, in order.
pub open spec fn add_new_methods(acc: Seq<Method>, ms: Seq<Method>) -> Seq<Method>
    decreases ms.len(),
{
    if ms.len() == 0 {
        acc
    } else {
        let a = add_new_methods(acc, ms.drop_last());
        if a.contains(ms.last()) {
            a
        } else {
            a.push(ms.last())
        }
    }
}

/// The methods of the rules that accept `path`, each once, in order of first appearance.
pub open spec fn allowed_spec(rules: Seq<Rule>, path: Seq<char>) -> Seq<Method>
    decreases rules.len(),
{
    if rules.len() == 0 {
        Seq::empty()
    } else if accepts(&rules.last().matcher, path) {
        add_new_methods(allowed_spec(rules.drop_last(), path), rules.last().methods@)
    } else {
        allowed_spec(rules.drop_last(), path)
    }
}

/// The method names joined by `, `, as the `Allow` header lists them.
pub open spec fn allow_header_spec(ms: Seq<Method>) -> Seq<char>
    decreases ms.len(),
{
    if ms.len() == 0 {
        Seq::empty()
    } else if ms.len() == 1 {
        method_name_spec(ms[0])@
    } else {
        allow_header_spec(ms.drop_last()) + ", "@ + method_name_spec(ms.last())@
    }
}

pub fn allow_header(ms: &Vec<Method>) -> (r: String)
    ensures
        r@ == allow_header_spec(ms@),
{
    let mut r = String::new();
    let mut i: usize = 0;
    while i < ms.len()
        invariant
            0 <= i <= ms@.len(),
            r@ == allow_header_spec(ms@.subrange(0, i as int)),
        decreases ms@.len() - i,
    {
        assert(ms@.subrange(0, i + 1).drop_last() =~= ms@.subrange(0, i as int));
        if i > 0 {
            r.append(", ");
        } else {
            assert(r@ =~= Seq::<char>::empty());
        }
        r.append(ms[i].name());
        i = i + 1;
    }
    assert(ms@.subrange(0, i as int) =~= ms@);
    r
}

/// A request whose path rule `i` accepts, with a method that rule allows and
/// no earlier rule takes, is bound to rule `i`; a request with a method that
/// no rule accepting its path allows is refused with `Method Not Allowed`,
/// unless the path lacks a trailing slash that a rule allowing the method has.
pub proof fn lemma_route_binding(
    rules: Seq<Rule>,
    path: Seq<char>,
    query: Option<Seq<char>>,
    m: Method,
    o: OutcomeView,
    i: int,
)
    requires
        bind_spec(rules, path, query, m, o),
        0 <= i < rules.len(),
        accepts(&rules[i].matcher, path),
    ensures
        rules[i].methods@.contains(m) && (forall|j: int| 0 <= j < i ==> !allows(#[trigger] rules[j], path, m))
            ==> o == OutcomeView::Rule(i, match_spec(&rules[i].matcher, path)->0),
        (forall|j: int| 0 <= j < rules.len() ==> !allows(#[trigger] rules[j], path, m)) && !redirects(rules, path, m)
            ==> o == OutcomeView::Error(METHOD_NOT_ALLOWED),
{
    if rules[i].methods@.contains(m) && (forall|j: int| 0 <= j < i ==> !allows(#[trigger] rules[j], path, m)) {
        assert(allows(rules[i], path, m));
        assert(any_allows(rules, path, m));
        match o {
            OutcomeView::Rule(k, b) => {
                if k > i {
                    assert(!allows(rules[i], path, m));
                }
                if k < i {
                    assert(!allows(rules[k], path, m));
                }
            },
            _ => {},
        }
    }
    if (forall|j: int| 0 <= j < rules.len() ==> !allows(#[trigger] rules[j], path, m)) && !redirects(rules, path, m) {
        assert(any_accepts(rules, path));
        match o {
            OutcomeView::Rule(k, b) => {
                assert(!allows(rules[k], path, m));
            },
            _ => {},
        }
    }
}

} // verus!
