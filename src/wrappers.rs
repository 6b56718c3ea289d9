//! The request and response values that flow through the pipeline.
use vstd::prelude::*;
use crate::text::{parse_decimal, is_decimal, decimal_value, opt_chars, concat, starts_with, contains_char, decimal, decimal_spec};
use crate::types::{reason_phrase, reason_spec, HTTPError, http_description_spec};
use crate::routing::{Method, Rule, UrlMap, MatchOutcome, OutcomeView, bind_spec, matcher_view, last_index_of};
use crate::datastructures::{MultiDict, MultiDictView, add_spec, has_key, key_index, entries_wf};
use vstd::utf8::encode_utf8;
use vstd::string::StringSliceAdditionalSpecFns;

verus! {

/// Header entries as plain values; a later entry replaces an earlier one of the same name.
pub type HeadersView = Seq<(Seq<char>, Seq<char>)>;

/// The value of header `name`: that of its last entry.
pub open spec fn header_spec(hs: HeadersView, name: Seq<char>) -> Option<Seq<char>>
    decreases hs.len(),
{
    if hs.len() == 0 {
        None
    } else if hs.last().0 == name {
        Some(hs.last().1)
    } else {
        header_spec(hs.drop_last(), name)
    }
}

/// After `set_content_length(n)`, `content_length` reads `n` back.
pub proof fn lemma_content_length_round_trip(headers: HeadersView, n: u64)
    ensures
        header_spec(headers.push(("Content-Length"@, decimal_spec(n as nat))), "Content-Length"@)
            == Some(decimal_spec(n as nat)),
        is_decimal(decimal_spec(n as nat)),
        decimal_value(decimal_spec(n as nat)) == n,
{
    crate::text::lemma_decimal_round_trip(n as nat);
}

/// A part of a file: `length` bytes from `offset` on.
#[derive(Debug)]
pub struct FileSlice {
    pub path: String,
    pub offset: u64,
    pub length: u64,
}

/// What a response sends after its headers.
#[derive(Debug)]
pub enum Body {
    Text(String),
    Bytes(Vec<u8>),
    File(FileSlice),
}

pub ghost enum BodyView {
    Text(Seq<char>),
    Bytes(Seq<u8>),
    File { path: Seq<char>, offset: u64, length: u64 },
}

impl View for Body {
    type V = BodyView;

    open spec fn view(&self) -> BodyView {
        match self {
            Body::Text(t) => BodyView::Text(t@),
            Body::Bytes(b) => BodyView::Bytes(b@),
            Body::File(f) => BodyView::File { path: f.path@, offset: f.offset, length: f.length },
        }
    }
}

/// A response: status code, header entries in order of setting, optional body.
#[derive(Debug)]
pub struct Response {
    pub status_code: u16,
    pub headers: Vec<(String, String)>,
    pub body: Option<Body>,
}

pub ghost struct ResponseView {
    pub status: u16,
    pub headers: HeadersView,
    pub body: Option<BodyView>,
}

impl View for Response {
    type V = ResponseView;

    open spec fn view(&self) -> ResponseView {
        ResponseView {
            status: self.status_code,
            headers: self.headers@.map_values(|h: (String, String)| (h.0@, h.1@)),
            body: match self.body {
                Some(b) => Some(b@),
                None => None,
            },
        }
    }
}

pub open spec fn html_content_type() -> Seq<char> {
    "text/html; charset=UTF-8"@
}

/// The value that `set_content_type` stores for `mimetype`: text types get a charset.
pub open spec fn content_type_spec(mimetype: Seq<char>) -> Seq<char> {
    if starts_with_spec_text(mimetype) && !mimetype.contains(';') {
        mimetype + "; charset=UTF-8"@
    } else {
        mimetype
    }
}

pub open spec fn starts_with_spec_text(m: Seq<char>) -> bool {
    crate::text::starts_with_spec(m, "text/"@)
}

impl Response {
    /// A 200 response with `body`, marked as HTML.
    pub fn new(body: Body) -> (r: Response)
        ensures
            r@.status == 200,
            r@.headers == seq![("Content-Type"@, html_content_type())],
            r@.body == Some(body@),
    {
        let mut headers: Vec<(String, String)> = Vec::new();
        headers.push((String::from_str("Content-Type"), String::from_str("text/html; charset=UTF-8")));
        let r = Response { status_code: 200, headers, body: Some(body) };
        assert(r@.headers =~= seq![("Content-Type"@, html_content_type())]);
        r
    }

    /// A 200 response without headers or body.
    pub fn new_empty() -> (r: Response)
        ensures
            r@.status == 200,
            r@.headers == Seq::<(Seq<char>, Seq<char>)>::empty(),
            r@.body is None,
    {
        let r = Response { status_code: 200, headers: Vec::new(), body: None };
        assert(r@.headers =~= Seq::<(Seq<char>, Seq<char>)>::empty());
        r
    }

    /// An HTML response whose body is `bytes`, with its length set.
    pub fn from_bytes(bytes: Vec<u8>) -> (r: Response)
        ensures
            r@.status == 200,
            r@.body == Some(BodyView::Bytes(bytes@)),
            header_spec(r@.headers, "Content-Type"@) == Some(html_content_type()),
            header_spec(r@.headers, "Content-Length"@) == Some(decimal_spec(bytes@.len())),
    {
        let n = bytes.len();
        let ghost b = bytes@;
        let mut r = Response::new(Body::Bytes(bytes));
        r.set_content_length(n as u64);
        proof {
            reveal_strlit("Content-Type");
            reveal_strlit("Content-Length");
            assert("Content-Length"@[8] != "Content-Type"@[8]);
            assert(r@.headers.drop_last() =~= seq![("Content-Type"@, html_content_type())]);
            assert(header_spec(r@.headers.drop_last(), "Content-Type"@) == Some(html_content_type()));
        }
        r
    }

    /// An HTML response whose body is the text `s`, with its length in bytes set.
    pub fn from_text(s: String) -> (r: Response)
        ensures
            r@.status == 200,
            r@.body == Some(BodyView::Text(s@)),
            r@.headers == seq![
                ("Content-Type"@, html_content_type()),
                ("Content-Length"@, decimal_spec(encode_utf8(s@).len())),
            ],
    {
        let ghost t = s@;
        let st = s.as_str();
        let n = st.as_bytes().len();
        let mut r = Response::new(Body::Text(s));
        r.set_content_length(n as u64);
        proof {
            assert(r@.headers =~= seq![
                ("Content-Type"@, html_content_type()),
                ("Content-Length"@, decimal_spec(encode_utf8(t).len())),
            ]);
        }
        r
    }

    /// Sets header `name` to `value`, replacing an earlier value.
    pub fn set_header(&mut self, name: &str, value: String)
        ensures
            final(self)@ == (ResponseView {
                headers: old(self)@.headers.push((name@, value@)),
                ..old(self)@
            }),
    {
        self.headers.push((name.to_owned(), value));
        proof {
            assert(self@.headers =~= old(self)@.headers.push((name@, value@)));
        }
    }

    /// The value of header `name`.
    pub fn get_header(&self, name: &str) -> (r: Option<String>)
        ensures
            opt_chars(r) == header_spec(self@.headers, name@),
    {
        let key = name.to_owned();
        let mut i: usize = self.headers.len();
        assert(self@.headers.subrange(0, i as int) =~= self@.headers);
        while i > 0
            invariant
                0 <= i <= self.headers.len(),
                key@ == name@,
                header_spec(self@.headers.subrange(0, i as int), name@) == header_spec(
                    self@.headers,
                    name@,
                ),
            decreases i,
        {
            let ghost hs = self@.headers.subrange(0, i as int);
            assert(hs.drop_last() =~= self@.headers.subrange(0, i - 1));
            if self.headers[i - 1].0 == key {
                return Some(self.headers[i - 1].1.clone());
            }
            i = i - 1;
        }
        proof {
            assert(self@.headers.subrange(0, 0).len() == 0);
        }
        None
    }

    /// Whether the response goes out without a body: for a `HEAD` request,
    /// and for the statuses 1xx, 204 and 304.
    pub fn omits_body(&self, request_method: Method) -> (r: bool)
        ensures
            r == (request_method == Method::Head || (100 <= self.status_code < 200)
                || self.status_code == 204 || self.status_code == 304),
    {
        request_method == Method::Head || (100 <= self.status_code && self.status_code < 200)
            || self.status_code == 204 || self.status_code == 304
    }

    /// The reason phrase of the status code, or `UNKNOWN`.
    pub fn status_name(&self) -> (r: &'static str)
        ensures
            r == (match reason_spec(self.status_code) {
                Some(s) => s,
                None => "UNKNOWN",
            }),
    {
        match reason_phrase(self.status_code) {
            Some(s) => s,
            None => "UNKNOWN",
        }
    }

    pub fn content_type(&self) -> (r: Option<String>)
        ensures
            opt_chars(r) == header_spec(self@.headers, "Content-Type"@),
    {
        self.get_header("Content-Type")
    }

    /// Sets the content type; a `text/` type without parameters gets the UTF-8 charset.
    pub fn set_content_type(&mut self, mimetype: &str)
        ensures
            final(self)@ == (ResponseView {
                headers: old(self)@.headers.push(("Content-Type"@, content_type_spec(mimetype@))),
                ..old(self)@
            }),
    {
        let value = if starts_with(mimetype, "text/") && !contains_char(mimetype, ';') {
            concat(mimetype, "; charset=UTF-8")
        } else {
            mimetype.to_owned()
        };
        self.set_header("Content-Type", value);
    }

    /// The value of `Content-Length`, where it is a decimal number that fits.
    pub fn content_length(&self) -> (r: Option<u64>)
        ensures
            r == (match header_spec(self@.headers, "Content-Length"@) {
                Some(v) => if is_decimal(v) && decimal_value(v) <= u64::MAX {
                    Some(decimal_value(v) as u64)
                } else {
                    None::<u64>
                },
                None => None::<u64>,
            }),
    {
        match self.get_header("Content-Length") {
            Some(v) => parse_decimal(v.as_str()),
            None => None,
        }
    }

    pub fn set_content_length(&mut self, value: u64)
        ensures
            final(self)@ == (ResponseView {
                headers: old(self)@.headers.push(("Content-Length"@, decimal_spec(value as nat))),
                ..old(self)@
            }),
    {
        self.set_header("Content-Length", decimal(value));
    }
}

/// The form of a `application/x-www-form-urlencoded` byte string, as
/// `url::form_urlencoded::parse` decodes it: its name and value pairs in order.
pub uninterp spec fn form_urlencoded_pairs(input: Seq<u8>) -> Seq<(Seq<char>, Seq<char>)>;

pub open spec fn pairs_view(v: Seq<(String, String)>) -> Seq<(Seq<char>, Seq<char>)> {
    v.map_values(|p: (String, String)| (p.0@, p.1@))
}

/// Relies on url::form_urlencoded::parse (with `into_owned`): the decoded
/// pairs, in order; an empty input has none.
#[verifier::external_body]
fn parse_urlencoded(input: &[u8]) -> (r: Vec<(String, String)>)
    ensures
        pairs_view(r@) == form_urlencoded_pairs(input@),
        input@.len() == 0 ==> r@.len() == 0,
{
    url::form_urlencoded::parse(input).into_owned().collect()
}

/// A dictionary of strings as plain values.
pub open spec fn text_dict(d: MultiDictView<String>) -> MultiDictView<Seq<char>> {
    d.map_values(|e: (Seq<char>, Seq<String>)| (e.0, e.1.map_values(|v: String| v@)))
}

/// The dictionary that adding `pairs` in order to an empty one gives.
pub open spec fn dict_of_pairs(pairs: Seq<(Seq<char>, Seq<char>)>) -> MultiDictView<Seq<char>>
    decreases pairs.len(),
{
    if pairs.len() == 0 {
        Seq::empty()
    } else {
        add_spec(dict_of_pairs(pairs.drop_last()), pairs.last().0, pairs.last().1)
    }
}

proof fn lemma_text_dict_add(d: MultiDictView<String>, k: Seq<char>, v: String)
    requires
        entries_wf(d),
    ensures
        text_dict(add_spec(d, k, v)) == add_spec(text_dict(d), k, v@),
{
    let t = text_dict(d);
    if has_key(d, k) {
        let i = key_index(d, k);
        assert(t[i].0 == k);
        assert(has_key(t, k));
        let j = key_index(t, k);
        assert(d[j].0 == k);
        assert(i == j);
        assert(d[i].1.push(v).map_values(|x: String| x@) =~= t[i].1.push(v@));
        assert(text_dict(add_spec(d, k, v)) =~= add_spec(t, k, v@));
    } else {
        assert(!has_key(t, k)) by {
            if has_key(t, k) {
                let j = key_index(t, k);
                assert(d[j].0 == k);
            }
        }
        assert(seq![v].map_values(|x: String| x@) =~= seq![v@]);
        assert(text_dict(add_spec(d, k, v)) =~= add_spec(t, k, v@));
    }
}

/// Builds a dictionary by adding each pair in order.
pub fn dict_from_pairs(pairs: Vec<(String, String)>) -> (r: MultiDict<String>)
    ensures
        r.wf(),
        text_dict(r@) == dict_of_pairs(pairs_view(pairs@)),
{
    let mut d: MultiDict<String> = MultiDict::new();
    let mut i: usize = 0;
    assert(text_dict(d@) =~= dict_of_pairs(pairs_view(pairs@.subrange(0, 0))));
    while i < pairs.len()
        invariant
            0 <= i <= pairs@.len(),
            d.wf(),
            text_dict(d@) == dict_of_pairs(pairs_view(pairs@.subrange(0, i as int))),
        decreases pairs@.len() - i,
    {
        assert(pairs_view(pairs@.subrange(0, i + 1)).drop_last() =~= pairs_view(pairs@.subrange(0, i as int)));
        let k = pairs[i].0.clone();
        let v = pairs[i].1.clone();
        proof {
            lemma_text_dict_add(d@, k@, v);
        }
        d.add(k, v);
        i = i + 1;
    }
    assert(pairs@.subrange(0, i as int) =~= pairs@);
    d
}

/// Decodes an `application/x-www-form-urlencoded` body into a dictionary.
pub fn decode_urlencoded(input: &[u8]) -> (r: MultiDict<String>)
    ensures
        r.wf(),
        text_dict(r@) == dict_of_pairs(form_urlencoded_pairs(input@)),
{
    dict_from_pairs(parse_urlencoded(input))
}

/// The module part of an endpoint: what stands before its last `.`.
pub open spec fn module_of(endpoint: Seq<char>) -> Option<Seq<char>> {
    let k = last_index_of(endpoint, '.');
    if k >= 0 {
        Some(endpoint.subrange(0, k))
    } else {
        None
    }
}

/// Removes every leading `/`.
pub open spec fn trim_slashes(s: Seq<char>) -> Seq<char>
    decreases s.len(),
{
    if s.len() > 0 && s[0] == '/' {
        trim_slashes(s.drop_first())
    } else {
        s
    }
}

/// The routing outcome that a request holds, if exactly one is set.
pub open spec fn routed_as(req: &Request, map: &UrlMap, o: OutcomeView) -> bool {
    match o {
        OutcomeView::Rule(i, b) => {
            &&& req.routing_redirect is None
            &&& req.routing_error is None
            &&& 0 <= i < map.rules@.len()
            &&& view_args_view(req.view_args) == b
            &&& match req.url_rule {
                Some(rule) => same_rule(rule, map.rules@[i]),
                None => false,
            }
        },
        OutcomeView::Redirect(u, c) => {
            &&& req.url_rule is None
            &&& req.routing_error is None
            &&& match req.routing_redirect {
                Some((ru, rc)) => ru@ == u && rc == c,
                None => false,
            }
        },
        OutcomeView::Error(c) => {
            &&& req.url_rule is None
            &&& req.routing_redirect is None
            &&& match req.routing_error {
                Some(e) => e.code == c,
                None => false,
            }
        },
    }
}

pub open spec fn same_rule(a: Rule, b: Rule) -> bool {
    matcher_view(&a.matcher) == matcher_view(&b.matcher) && a.methods@ == b.methods@
        && a.endpoint@ == b.endpoint@ && a.provide_automatic_options == b.provide_automatic_options
}

pub open spec fn view_args_view(v: Option<(String, String)>) -> Option<(Seq<char>, Seq<char>)> {
    match v {
        Some((n, x)) => Some((n@, x@)),
        None => None,
    }
}

pub open spec fn query_view(q: Option<String>) -> Option<Seq<char>> {
    match q {
        Some(s) => Some(s@),
        None => None,
    }
}

/// A request as the pipeline sees it: what the client sent, then the outcome
/// of routing, then the query arguments and form once they are read.
#[derive(Debug)]
pub struct Request {
    pub remote_addr: String,
    pub method: Method,
    pub host: String,
    pub path: String,
    pub query: Option<String>,
    /// Header entries as received.
    pub headers: Vec<(String, String)>,
    pub content_type: Option<String>,
    pub url_rule: Option<Rule>,
    pub view_args: Option<(String, String)>,
    pub routing_redirect: Option<(String, u16)>,
    pub routing_error: Option<HTTPError>,
    /// The query arguments, once decoded.
    pub args: Option<MultiDict<String>>,
    /// The form fields, once read.
    pub form: Option<MultiDict<String>>,
}

impl Request {
    pub fn new(
        remote_addr: String,
        method: Method,
        host: String,
        path: String,
        query: Option<String>,
        headers: Vec<(String, String)>,
        content_type: Option<String>,
    ) -> (r: Request)
        ensures
            r.remote_addr == remote_addr,
            r.method == method,
            r.host == host,
            r.path == path,
            r.query == query,
            r.headers == headers,
            r.content_type == content_type,
            r.url_rule is None,
            r.view_args is None,
            r.routing_redirect is None,
            r.routing_error is None,
            r.args is None,
            r.form is None,
            r.wf(),
    {
        Request {
            remote_addr,
            method,
            host,
            path,
            query,
            headers,
            content_type,
            url_rule: None,
            view_args: None,
            routing_redirect: None,
            routing_error: None,
            args: None,
            form: None,
        }
    }

    /// Binds the request against `url_map` and keeps the one outcome.
    pub fn match_request(&mut self, url_map: &UrlMap)
        ensures
            exists|o: OutcomeView|
                bind_spec(url_map.rules@, old(self).path@, query_view(old(self).query), old(self).method, o)
                    && routed_as(final(self), url_map, o),
            final(self).method == old(self).method,
            final(self).path == old(self).path,
            final(self).query == old(self).query,
            final(self).host == old(self).host,
            final(self).content_type == old(self).content_type,
            final(self).headers == old(self).headers,
            final(self).remote_addr == old(self).remote_addr,
            final(self).args == old(self).args,
            final(self).form == old(self).form,
    {
        let q = match &self.query {
            Some(q) => Some(q.as_str()),
            None => None,
        };
        let outcome = url_map.bind(self.path.as_str(), q, self.method);
        let ghost o = outcome@;
        self.url_rule = None;
        self.view_args = None;
        self.routing_redirect = None;
        self.routing_error = None;
        match outcome {
            MatchOutcome::MatchedRule(i, b) => {
                self.url_rule = Some(url_map.rules[i].clone());
                self.view_args = b;
            },
            MatchOutcome::MatchedRedirect(u, c) => {
                self.routing_redirect = Some((u, c));
            },
            MatchOutcome::MatchedError(e) => {
                self.routing_error = Some(e);
            },
        }
        assert(routed_as(self, url_map, o));
    }

    /// The endpoint of the matched rule.
    pub fn endpoint(&self) -> (r: Option<String>)
        ensures
            opt_chars(r) == (match self.url_rule {
                Some(rule) => Some(rule.endpoint@),
                None => None,
            }),
    {
        match &self.url_rule {
            Some(rule) => Some(rule.endpoint.clone()),
            None => None,
        }
    }

    /// The module that the matched endpoint belongs to, if it is namespaced.
    pub fn module_name(&self) -> (r: Option<String>)
        ensures
            opt_chars(r) == (match self.url_rule {
                Some(rule) => module_of(rule.endpoint@),
                None => None,
            }),
    {
        match &self.url_rule {
            Some(rule) => {
                let e = rule.endpoint.as_str();
                match crate::routing::last_index(e, '.') {
                    Some(k) => Some(e.substring_char(0, k).to_owned()),
                    None => None,
                }
            },
            None => None,
        }
    }

    /// The value bound to the pattern variable `name`.
    pub fn view_arg(&self, name: &str) -> (r: Option<String>)
        ensures
            opt_chars(r) == (match view_args_view(self.view_args) {
                Some((n, v)) => if n == name@ { Some(v) } else { None },
                None => None,
            }),
    {
        match &self.view_args {
            Some((n, v)) => if crate::text::str_eq(n.as_str(), name) {
                Some(v.clone())
            } else {
                None
            },
            None => None,
        }
    }

    /// Whatever the request keeps is well formed.
    pub open spec fn wf(&self) -> bool {
        &&& (match self.args {
            Some(a) => a.wf(),
            None => true,
        })
        &&& (match self.form {
            Some(f) => f.wf(),
            None => true,
        })
    }

    /// The query arguments, decoded on first use and kept.
    pub fn args(&mut self) -> (r: &MultiDict<String>)
        requires
            old(self).wf(),
        ensures
            final(self).wf(),
            r.wf(),
            text_dict(r@) == (match old(self).args {
                Some(a) => text_dict(a@),
                None => dict_of_pairs(form_urlencoded_pairs(match old(self).query {
                    Some(q) => encode_utf8(q@),
                    None => Seq::empty(),
                })),
            }),
            final(self).args == Some(*r),
            final(self).form == old(self).form,
            final(self).url_rule == old(self).url_rule,
    {
        if self.args.is_none() {
            let parsed = match &self.query {
                Some(q) => {
                    let b = q.as_str().as_bytes();
                    assert(b@ == encode_utf8(q@));
                    decode_urlencoded(b)
                },
                None => {
                    let empty: Vec<u8> = Vec::new();
                    assert(empty@ =~= Seq::<u8>::empty());
                    decode_urlencoded(empty.as_slice())
                },
            };
            self.args = Some(parsed);
        }
        match &self.args {
            Some(a) => a,
            None => {
                proof { assert(false); }
                unreached()
            }
        }
    }
}

/// The page that renders an HTTP error.
pub open spec fn error_page(code: u16) -> Seq<char> {
    "<!DOCTYPE HTML PUBLIC \"-//W3C//DTD HTML 3.2 Final//EN\">\n<title>"@ + decimal_spec(code as nat)
        + " "@ + http_description_spec(code)@ + "</title>\n<h1>"@ + http_description_spec(code)@
        + "</h1>\n"@
}

/// The default rendering of an HTTP error with status `code`.
pub open spec fn error_response_spec(code: u16) -> ResponseView {
    ResponseView {
        status: code,
        headers: seq![
            ("Content-Type"@, html_content_type()),
            ("Content-Length"@, decimal_spec(encode_utf8(error_page(code)).len())),
        ],
        body: Some(BodyView::Text(error_page(code))),
    }
}

impl HTTPError {
    /// The default response for this error: its status and an HTML page naming it.
    pub fn to_response(&self) -> (r: Response)
        ensures
            r@ == error_response_spec(self.code),
    {
        let mut page = String::from_str("<!DOCTYPE HTML PUBLIC \"-//W3C//DTD HTML 3.2 Final//EN\">\n<title>");
        let code = decimal(self.code as u64);
        page.append(code.as_str());
        page.append(" ");
        page.append(self.description());
        page.append("</title>\n<h1>");
        page.append(self.description());
        page.append("</h1>\n");
        let mut r = Response::from_text(page);
        r.status_code = self.code;
        r
    }
}

impl Request {
    /// Keeps `form` as the request's form fields, unless they were read already.
    pub fn fill_form(&mut self, form: MultiDict<String>)
        requires
            old(self).wf(),
            form.wf(),
        ensures
            final(self).wf(),
            final(self).form == (match old(self).form {
                Some(f) => Some(f),
                None => Some(form),
            }),
            *final(self) == (Request { form: final(self).form, ..*old(self) }),
    {
        if self.form.is_none() {
            self.form = Some(form);
        }
    }

    pub fn path(&self) -> (r: String)
        ensures
            r@ == self.path@,
    {
        self.path.clone()
    }

    pub fn host(&self) -> (r: String)
        ensures
            r@ == self.host@,
    {
        self.host.clone()
    }

    pub fn query_string(&self) -> (r: Option<String>)
        ensures
            opt_chars(r) == query_view(self.query),
    {
        match &self.query {
            Some(q) => Some(q.clone()),
            None => None,
        }
    }

    pub fn method(&self) -> (r: Method)
        ensures
            r == self.method,
    {
        self.method
    }

    pub fn remote_addr(&self) -> (r: String)
        ensures
            r@ == self.remote_addr@,
    {
        self.remote_addr.clone()
    }

    /// The value of the `Cookie` header.
    pub fn cookies(&self) -> (r: Option<String>)
        ensures
            opt_chars(r) == header_spec(self.headers@.map_values(|h: (String, String)| (h.0@, h.1@)), "Cookie"@),
    {
        self.get_header("Cookie")
    }

    /// The value of header `name`: that of its last entry.
    pub fn get_header(&self, name: &str) -> (r: Option<String>)
        ensures
            opt_chars(r) == header_spec(self.headers@.map_values(|h: (String, String)| (h.0@, h.1@)), name@),
    {
        let key = name.to_owned();
        let ghost hs = self.headers@.map_values(|h: (String, String)| (h.0@, h.1@));
        let mut i: usize = self.headers.len();
        assert(hs.subrange(0, i as int) =~= hs);
        while i > 0
            invariant
                0 <= i <= self.headers.len(),
                hs.len() == self.headers@.len(),
                hs == self.headers@.map_values(|h: (String, String)| (h.0@, h.1@)),
                key@ == name@,
                header_spec(hs.subrange(0, i as int), name@) == header_spec(hs, name@),
            decreases i,
        {
            assert(hs.subrange(0, i as int).drop_last() =~= hs.subrange(0, i - 1));
            if self.headers[i - 1].0 == key {
                return Some(self.headers[i - 1].1.clone());
            }
            i = i - 1;
        }
        proof {
            assert(hs.subrange(0, 0).len() == 0);
        }
        None
    }

    /// The form fields, once read.
    pub fn form(&self) -> (r: Option<&MultiDict<String>>)
        ensures
            match r {
                Some(f) => self.form == Some(*f),
                None => self.form is None,
            },
    {
        match &self.form {
            Some(f) => Some(f),
            None => None,
        }
    }

    /// The path followed by `?` and the query string, if there is one.
    pub fn full_path(&self) -> (r: String)
        ensures
            r@ == (match self.query {
                Some(q) => self.path@ + "?"@ + q@,
                None => self.path@,
            }),
    {
        match &self.query {
            Some(q) => {
                let p = concat(self.path.as_str(), "?");
                concat(p.as_str(), q.as_str())
            },
            None => self.path.clone(),
        }
    }

    /// `http://<host>/`.
    pub fn host_url(&self) -> (r: String)
        ensures
            r@ == "http://"@ + self.host@ + "/"@,
    {
        let a = concat("http://", self.host.as_str());
        concat(a.as_str(), "/")
    }

    /// The full URL: the host URL, then the full path without its leading slashes.
    pub fn url(&self) -> (r: String)
        ensures
            r@ == "http://"@ + self.host@ + "/"@ + trim_slashes(match self.query {
                Some(q) => self.path@ + "?"@ + q@,
                None => self.path@,
            }),
    {
        let h = self.host_url();
        let f = self.full_path();
        let t = trim_leading_slashes(f.as_str());
        concat(h.as_str(), t.as_str())
    }

    /// The URL without the query string.
    pub fn base_url(&self) -> (r: String)
        ensures
            r@ == "http://"@ + self.host@ + "/"@ + trim_slashes(self.path@),
    {
        let h = self.host_url();
        let t = trim_leading_slashes(self.path.as_str());
        concat(h.as_str(), t.as_str())
    }
}

/// `s` without its leading slashes.
pub fn trim_leading_slashes(s: &str) -> (r: String)
    ensures
        r@ == trim_slashes(s@),
{
    let n = s.unicode_len();
    let mut i: usize = 0;
    assert(s@.subrange(0, n as int) =~= s@);
    while i < n && s.get_char(i) == '/'
        invariant
            n == s@.len(),
            0 <= i <= n,
            trim_slashes(s@.subrange(i as int, n as int)) == trim_slashes(s@),
        decreases n - i,
    {
        assert(s@.subrange(i as int, n as int).drop_first() =~= s@.subrange(i + 1, n as int));
        i = i + 1;
    }
    s.substring_char(i, n).to_owned()
}

} // verus!
