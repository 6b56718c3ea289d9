//! Helpers for views: path joining, HTML escaping, redirects and file responses.
use vstd::prelude::*;
use crate::text::{concat, decimal, decimal_spec, starts_with, starts_with_spec, str_eq};
use crate::types::{HTTPError, PenError, UserError, ErrorView, NOT_FOUND, NOT_IMPLEMENTED, RANGE_NOT_SATISFIABLE};
use crate::wrappers::{Body, BodyView, FileSlice, Response, ResponseView, html_content_type, content_type_spec};
use vstd::utf8::encode_utf8;

verus! {

/// Whether a file name may not be joined to a directory: it is absolute, is
/// `..`, or starts with `../`.
pub open spec fn unsafe_filename(f: Seq<char>) -> bool {
    starts_with_spec(f, "/"@) || f == ".."@ || starts_with_spec(f, "../"@)
}

/// `directory` and `filename` joined with one separator.
pub open spec fn join_spec(directory: Seq<char>, filename: Seq<char>) -> Seq<char> {
    if directory.len() == 0 {
        filename
    } else if directory.last() == '/' {
        directory + filename
    } else {
        directory + "/"@ + filename
    }
}

pub open spec fn safe_join_spec(directory: Seq<char>, filename: Seq<char>) -> Option<Seq<char>> {
    if unsafe_filename(filename) {
        None
    } else {
        Some(join_spec(directory, filename))
    }
}

/// Joins `filename` to `directory`, or `None` where the name could leave it.
pub fn safe_join(directory: &str, filename: &str) -> (r: Option<String>)
    ensures
        opt_chars_eq(r, safe_join_spec(directory@, filename@)),
{
    if starts_with(filename, "/") || str_eq(filename, "..") || starts_with(filename, "../") {
        return None;
    }
    Some(join_path(directory, filename))
}

/// `directory` and `filename` joined with one separator.
pub fn join_path(directory: &str, filename: &str) -> (r: String)
    ensures
        r@ == join_spec(directory@, filename@),
{
    let n = directory.unicode_len();
    if n == 0 {
        filename.to_owned()
    } else if directory.get_char(n - 1) == '/' {
        concat(directory, filename)
    } else {
        let d = concat(directory, "/");
        concat(d.as_str(), filename)
    }
}

pub open spec fn opt_chars_eq(r: Option<String>, s: Option<Seq<char>>) -> bool {
    match (r, s) {
        (Some(a), Some(b)) => a@ == b,
        (None, None) => true,
        _ => false,
    }
}

/// What one character becomes in HTML text.
pub open spec fn escape_char(c: char) -> Seq<char> {
    if c == '&' {
        "&amp;"@
    } else if c == '<' {
        "&lt;"@
    } else if c == '>' {
        "&gt;"@
    } else if c == '"' {
        "&quot;"@
    } else {
        seq![c]
    }
}

pub open spec fn escape_spec(s: Seq<char>) -> Seq<char>
    decreases s.len(),
{
    if s.len() == 0 {
        Seq::empty()
    } else {
        escape_spec(s.drop_last()) + escape_char(s.last())
    }
}

/// Replaces `&`, `<`, `>` and `"` by their HTML entities.
pub fn escape(s: &str) -> (r: String)
    ensures
        r@ == escape_spec(s@),
{
    let n = s.unicode_len();
    let mut r = String::new();
    let mut i: usize = 0;
    while i < n
        invariant
            n == s@.len(),
            0 <= i <= n,
            r@ == escape_spec(s@.subrange(0, i as int)),
        decreases n - i,
    {
        let c = s.get_char(i);
        assert(s@.subrange(0, i + 1).drop_last() =~= s@.subrange(0, i as int));
        if c == '&' {
            r.append("&amp;");
        } else if c == '<' {
            r.append("&lt;");
        } else if c == '>' {
            r.append("&gt;");
        } else if c == '"' {
            r.append("&quot;");
        } else {
            let one = s.substring_char(i, i + 1);
            assert(one@ =~= seq![c]);
            r.append(one);
        }
        i = i + 1;
    }
    assert(s@.subrange(0, n as int) =~= s@);
    r
}

/// Fails with the HTTP error of status `code`.
pub fn abort(code: u16) -> (r: Result<Response, PenError>)
    ensures
        r matches Err(e) && e@ == ErrorView::Http(code),
{
    Err(PenError::PenHTTPError(HTTPError::new(code)))
}

/// The page that a redirect sends along.
pub open spec fn redirect_body(location: Seq<char>) -> Seq<char> {
    "<!DOCTYPE HTML PUBLIC \"-//W3C//DTD HTML 3.2 Final//EN\">\n<title>Redirecting...</title>\n<h1>Redirecting...</h1>\n<p>You should be redirected automatically to target URL: \n<a href=\""@
        + location + "\">"@ + location + "</a>.  If not click the link.\n"@
}

pub open spec fn redirect_spec(location: Seq<char>, code: u16) -> ResponseView {
    ResponseView {
        status: code,
        headers: seq![
            ("Content-Type"@, html_content_type()),
            ("Content-Length"@, decimal_spec(encode_utf8(redirect_body(location)).len())),
            ("Content-Type"@, content_type_spec("text/html"@)),
            ("Location"@, location),
        ],
        body: Some(BodyView::Text(redirect_body(location))),
    }
}

/// A response that sends the client to `location` with status `code`.
pub fn redirect(location: &str, code: u16) -> (r: Result<Response, PenError>)
    ensures
        r matches Ok(resp) && resp@ == redirect_spec(location@, code),
{
    let mut body = String::from_str("<!DOCTYPE HTML PUBLIC \"-//W3C//DTD HTML 3.2 Final//EN\">\n<title>Redirecting...</title>\n<h1>Redirecting...</h1>\n<p>You should be redirected automatically to target URL: \n<a href=\"");
    body.append(location);
    body.append("\">");
    body.append(location);
    body.append("</a>.  If not click the link.\n");
    let ghost b = body@;
    assert(b == redirect_body(location@));
    let mut response = Response::from_text(body);
    response.status_code = code;
    response.set_content_type("text/html");
    response.set_header("Location", location.to_owned());
    proof {
        assert(response@.headers =~= redirect_spec(location@, code).headers);
    }
    Ok(response)
}

/// One span of a byte-range request.
#[derive(Clone, Copy, Debug, PartialEq, Eq, Structural)]
pub enum ByteRangeSpec {
    /// Bytes `from` through `to`, both included.
    FromTo(u64, u64),
    /// Bytes from `from` to the end.
    AllFrom(u64),
    /// The last `n` bytes.
    Last(u64),
}

/// A `Range` request header.
#[derive(Debug)]
pub enum Range {
    Bytes(Vec<ByteRangeSpec>),
    Unregistered(String, String),
}

/// Which bytes of a file of `len` bytes to send, and whether that is a part of it.
#[derive(Clone, Copy, Debug, PartialEq, Eq, Structural)]
pub struct RangePlan {
    pub partial: bool,
    pub offset: u64,
    pub length: u64,
}

pub open spec fn min_u64(a: u64, b: u64) -> u64 {
    if a <= b { a } else { b }
}

/// The plan for one span of a `len`-byte file, or the status of the error
/// for a span that selects no byte of it. An end past the file is cut to its
/// last byte, and a suffix longer than the file selects all of it.
pub open spec fn span_plan(len: u64, span: ByteRangeSpec) -> Result<RangePlan, u16> {
    match span {
        ByteRangeSpec::FromTo(from, to) => if from > to || from >= len {
            Err(RANGE_NOT_SATISFIABLE)
        } else {
            Ok(RangePlan { partial: true, offset: from, length: (min_u64(to, (len - 1) as u64) - from + 1) as u64 })
        },
        ByteRangeSpec::AllFrom(from) => if from >= len {
            Err(RANGE_NOT_SATISFIABLE)
        } else {
            Ok(RangePlan { partial: true, offset: from, length: (len - from) as u64 })
        },
        ByteRangeSpec::Last(n) => if n == 0 || len == 0 {
            Err(RANGE_NOT_SATISFIABLE)
        } else {
            Ok(RangePlan { partial: true, offset: (len - min_u64(n, len)) as u64, length: min_u64(n, len) })
        },
    }
}

/// The plan for a `len`-byte file and an optional range header: the whole
/// file without one, a single span with one, and `Not Implemented` for
/// several spans or a unit other than bytes.
pub open spec fn range_plan_spec(len: u64, range: Option<&Range>) -> Result<RangePlan, u16> {
    match range {
        None => Ok(RangePlan { partial: false, offset: 0, length: len }),
        Some(Range::Bytes(spans)) => if spans@.len() != 1 {
            Err(NOT_IMPLEMENTED)
        } else {
            span_plan(len, spans@[0])
        },
        Some(Range::Unregistered(_, _)) => Err(NOT_IMPLEMENTED),
    }
}

pub fn plan_range(len: u64, range: Option<&Range>) -> (r: Result<RangePlan, u16>)
    ensures
        r == range_plan_spec(len, range),
{
    match range {
        None => Ok(RangePlan { partial: false, offset: 0, length: len }),
        Some(Range::Unregistered(_, _)) => Err(NOT_IMPLEMENTED),
        Some(Range::Bytes(spans)) => {
            if spans.len() != 1 {
                return Err(NOT_IMPLEMENTED);
            }
            match spans[0] {
                ByteRangeSpec::FromTo(from, to) => {
                    if from > to || from >= len {
                        Err(RANGE_NOT_SATISFIABLE)
                    } else {
                        let last = if to <= len - 1 { to } else { len - 1 };
                        Ok(RangePlan { partial: true, offset: from, length: last - from + 1 })
                    }
                },
                ByteRangeSpec::AllFrom(from) => {
                    if from >= len {
                        Err(RANGE_NOT_SATISFIABLE)
                    } else {
                        Ok(RangePlan { partial: true, offset: from, length: len - from })
                    }
                },
                ByteRangeSpec::Last(n) => {
                    if n == 0 || len == 0 {
                        Err(RANGE_NOT_SATISFIABLE)
                    } else {
                        let k = if n <= len { n } else { len };
                        Ok(RangePlan { partial: true, offset: len - k, length: k })
                    }
                },
            }
        },
    }
}

/// The value of `Content-Range` for a part of a `len`-byte file.
pub open spec fn content_range_spec(plan: RangePlan, len: u64) -> Seq<char> {
    "bytes "@ + decimal_spec(plan.offset as nat) + "-"@ + decimal_spec(
        (plan.offset + plan.length - 1) as nat,
    ) + "/"@ + decimal_spec(len as nat)
}

pub fn content_range(plan: RangePlan, len: u64) -> (r: String)
    requires
        plan.length > 0,
        plan.offset + plan.length <= len,
    ensures
        r@ == content_range_spec(plan, len),
{
    let mut r = String::from_str("bytes ");
    let a = decimal(plan.offset);
    r.append(a.as_str());
    r.append("-");
    let b = decimal(plan.offset + plan.length - 1);
    r.append(b.as_str());
    r.append("/");
    let c = decimal(len);
    r.append(c.as_str());
    r
}

/// What the file system says of a path, read by the caller before a file is sent.
#[derive(Debug)]
pub enum FileProbe {
    /// The path names no regular file.
    Missing,
    /// A regular file that could not be opened, with the reason.
    Unreadable(String),
    /// A regular file of this many bytes.
    Readable(u64),
}

/// The MIME type that `mime_guess` gives a path, from its extension.
pub uninterp spec fn mime_of(path: Seq<char>) -> Seq<char>;

/// Relies on mime_guess::guess_mime_type: the type that the path's extension
/// maps to (`application/octet-stream` where none does), written out.
#[verifier::external_body]
fn guess_mime_type(path: &str) -> (r: String)
    ensures
        r@ == mime_of(path@),
{
    mime_guess::guess_mime_type(std::path::Path::new(path)).to_string()
}

/// The final component of a path, as `std::path::Path::file_name` reads it.
pub uninterp spec fn file_name_of(path: Seq<char>) -> Option<Seq<char>>;

/// Relies on std::path::Path::file_name: the last normal component of the
/// path, if it has one.
#[verifier::external_body]
fn file_name(path: &str) -> (r: Option<String>)
    ensures
        opt_chars_eq(r, file_name_of(path@)),
{
    match std::path::Path::new(path).file_name() {
        Some(name) => name.to_str().map(|n| n.to_string()),
        None => None,
    }
}

pub open spec fn attachment_error() -> Seq<char> {
    "filename unavailable, required for sending as attachment."@
}

pub open spec fn open_error(path: Seq<char>, reason: Seq<char>) -> Seq<char> {
    "couldn't open "@ + path + ": "@ + reason
}

/// The headers of a file response, in the order they are set.
pub open spec fn file_headers_spec(
    len: u64,
    plan: RangePlan,
    mimetype: Seq<char>,
    attachment: Option<Seq<char>>,
) -> Seq<(Seq<char>, Seq<char>)> {
    let base = seq![("Content-Type"@, html_content_type()), ("Content-Length"@, decimal_spec(plan.length as nat))];
    let ranged = if plan.partial {
        base.push(("Content-Range"@, content_range_spec(plan, len)))
    } else {
        base
    };
    let typed = ranged.push(("Content-Type"@, mimetype));
    match attachment {
        Some(name) => typed.push(("Content-Disposition"@, "attachment; filename="@ + name)),
        None => typed,
    }
}

pub open spec fn file_response_spec(
    path: Seq<char>,
    len: u64,
    plan: RangePlan,
    mimetype: Seq<char>,
    attachment: Option<Seq<char>>,
) -> ResponseView {
    ResponseView {
        status: if plan.partial { 206u16 } else { 200u16 },
        headers: file_headers_spec(len, plan, mimetype, attachment),
        body: Some(BodyView::File { path, offset: plan.offset, length: plan.length }),
    }
}

/// The outcome of sending the file at `path`, given what the file system said
/// of it: `Not Found` for no regular file, a user error where it cannot be
/// opened, the error of the range plan, a user error where an attachment has
/// no file name, and otherwise the planned part of the file.
pub open spec fn send_file_range_spec(
    path: Seq<char>,
    probe: &FileProbe,
    mimetype: Seq<char>,
    as_attachment: bool,
    range: Option<&Range>,
) -> Result<ResponseView, ErrorView> {
    match probe {
        FileProbe::Missing => Err(ErrorView::Http(NOT_FOUND)),
        FileProbe::Unreadable(reason) => Err(ErrorView::User(open_error(path, reason@))),
        FileProbe::Readable(len) => match range_plan_spec(*len, range) {
            Err(code) => Err(ErrorView::Http(code)),
            Ok(plan) => if !as_attachment {
                Ok(file_response_spec(path, *len, plan, mimetype, None))
            } else {
                match file_name_of(path) {
                    None => Err(ErrorView::User(attachment_error())),
                    Some(name) => Ok(file_response_spec(path, *len, plan, mimetype, Some(name))),
                }
            },
        },
    }
}

pub open spec fn result_view(r: Result<Response, PenError>) -> Result<ResponseView, ErrorView> {
    match r {
        Ok(resp) => Ok(resp@),
        Err(e) => Err(e@),
    }
}

/// Sends the file at `filepath` (or the part that `range` asks for) with the
/// given MIME type, optionally as an attachment.
pub fn send_file_range(
    filepath: &str,
    probe: &FileProbe,
    mimetype: &str,
    as_attachment: bool,
    range: Option<&Range>,
) -> (r: Result<Response, PenError>)
    ensures
        result_view(r) == send_file_range_spec(filepath@, probe, mimetype@, as_attachment, range),
{
    let len = match probe {
        FileProbe::Missing => {
            return Err(PenError::PenHTTPError(HTTPError::new(NOT_FOUND)));
        },
        FileProbe::Unreadable(reason) => {
            let mut msg = String::from_str("couldn't open ");
            msg.append(filepath);
            msg.append(": ");
            msg.append(reason.as_str());
            return Err(PenError::PenUserError(UserError { desc: msg }));
        },
        FileProbe::Readable(len) => *len,
    };
    let plan = match plan_range(len, range) {
        Ok(plan) => plan,
        Err(code) => {
            return Err(PenError::PenHTTPError(HTTPError::new(code)));
        },
    };
    let body = Body::File(FileSlice { path: filepath.to_owned(), offset: plan.offset, length: plan.length });
    let mut response = Response::new(body);
    if plan.partial {
        response.status_code = 206;
    }
    response.set_content_length(plan.length);
    if plan.partial {
        response.set_header("Content-Range", content_range(plan, len));
    }
    response.set_header("Content-Type", mimetype.to_owned());
    let ghost attachment: Option<Seq<char>> = None;
    if as_attachment {
        match file_name(filepath) {
            Some(name) => {
                let value = concat("attachment; filename=", name.as_str());
                response.set_header("Content-Disposition", value);
                proof {
                    attachment = Some(name@);
                }
            },
            None => {
                return Err(PenError::PenUserError(UserError::new("filename unavailable, required for sending as attachment.")));
            },
        }
    }
    proof {
        assert(response@.headers =~= file_headers_spec(len, plan, mimetype@, attachment));
    }
    Ok(response)
}

/// Sends the whole file at `filepath`.
pub fn send_file(filepath: &str, probe: &FileProbe, mimetype: &str, as_attachment: bool) -> (r: Result<Response, PenError>)
    ensures
        result_view(r) == send_file_range_spec(filepath@, probe, mimetype@, as_attachment, None),
{
    send_file_range(filepath, probe, mimetype, as_attachment, None)
}

/// The outcome of sending `filename` from `directory`, where `probe` is what
/// the file system says of the joined path.
pub open spec fn send_from_directory_range_spec(
    directory: Seq<char>,
    filename: Seq<char>,
    as_attachment: bool,
    range: Option<&Range>,
    probe: &FileProbe,
) -> Result<ResponseView, ErrorView> {
    match safe_join_spec(directory, filename) {
        None => Err(ErrorView::Http(NOT_FOUND)),
        Some(path) => send_file_range_spec(path, probe, mime_of(path), as_attachment, range),
    }
}

/// Sends `filename` from `directory`, refusing names that could leave it.
/// `probe` is what the file system says of `safe_join(directory, filename)`.
pub fn send_from_directory_range(
    directory: &str,
    filename: &str,
    as_attachment: bool,
    range: Option<&Range>,
    probe: &FileProbe,
) -> (r: Result<Response, PenError>)
    ensures
        result_view(r) == send_from_directory_range_spec(directory@, filename@, as_attachment, range, probe),
{
    match safe_join(directory, filename) {
        None => Err(PenError::PenHTTPError(HTTPError::new(NOT_FOUND))),
        Some(path) => {
            let mimetype = guess_mime_type(path.as_str());
            send_file_range(path.as_str(), probe, mimetype.as_str(), as_attachment, range)
        },
    }
}

/// Sends the whole of `filename` from `directory`.
pub fn send_from_directory(directory: &str, filename: &str, as_attachment: bool, probe: &FileProbe) -> (r: Result<Response, PenError>)
    ensures
        result_view(r) == send_from_directory_range_spec(directory@, filename@, as_attachment, None, probe),
{
    send_from_directory_range(directory, filename, as_attachment, None, probe)
}

} // verus!
