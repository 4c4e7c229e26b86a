//! The control plane's side of the shared state: routing of its requests,
//! the replies it sends, and the form that updates the configuration.

use crate::config::{form_applied, ShapingConfig};
use crate::number::{decimal_text, push_decimal};
use crate::shaping::random_between;
use crate::stats::{stats_json, Stats};
use crate::text::{
    chars_of, find_last, find_line_end, find_non_space, find_other, find_space, find_text,
    first_match, first_stop, line_end, rfind_char, skip_spaces, text_is, token_end, window_is,
    Stop,
};
use vstd::prelude::*;
use vstd::string::*;
use vstd::utf8::encode_utf8;

verus! {

/// Where the file name of a path ends, looking back from `to`: slashes at
/// the end and segments that are a single dot are passed over.
pub open spec fn name_end(s: Seq<char>, to: int) -> int
    decreases to,
{
    if to <= 0 {
        0
    } else if s[to - 1] == '/' {
        name_end(s, to - 1)
    } else if s[to - 1] == '.' && (to == 1 || s[to - 2] == '/') {
        name_end(s, to - 1)
    } else {
        to
    }
}

/// Where the file name of a path starts: after the last slash before its
/// end, or at the start of the path.
pub open spec fn name_start(s: Seq<char>) -> int {
    let to = name_end(s, s.len() as int);
    let slash = rfind_char(s, 0, to, '/');
    if slash < to {
        slash + 1
    } else {
        0
    }
}

/// The file name of a path, with `/` between its segments: the last segment
/// that is neither empty nor a single dot. A path that is made of such
/// segments alone has an empty one.
pub open spec fn file_name_of(s: Seq<char>) -> Seq<char> {
    s.subrange(name_start(s), name_end(s, s.len() as int))
}

/// The extension of a file path: what follows the last dot of its file name.
/// It is empty where the file name holds no dot, where its only dot stands
/// in front, and where the path ends in `..`.
pub open spec fn extension_of(s: Seq<char>) -> Seq<char> {
    let from = name_start(s);
    let to = name_end(s, s.len() as int);
    let dot = rfind_char(s, from, to, '.');
    if from < dot < to {
        s.subrange(dot + 1, to)
    } else {
        Seq::empty()
    }
}

/// The media type that goes with a file extension, given in lower case;
/// any other extension is served as plain bytes.
pub open spec fn media_type(ext: Seq<char>) -> Seq<char> {
    if ext == "html"@ {
        "text/html; charset=utf-8"@
    } else if ext == "css"@ {
        "text/css; charset=utf-8"@
    } else if ext == "js"@ {
        "application/javascript; charset=utf-8"@
    } else if ext == "json"@ {
        "application/json; charset=utf-8"@
    } else if ext == "svg"@ {
        "image/svg+xml"@
    } else if ext == "png"@ {
        "image/png"@
    } else if ext == "jpg"@ || ext == "jpeg"@ {
        "image/jpeg"@
    } else if ext == "ico"@ {
        "image/x-icon"@
    } else if ext == "woff"@ {
        "font/woff"@
    } else if ext == "woff2"@ {
        "font/woff2"@
    } else if ext == "ttf"@ {
        "font/ttf"@
    } else {
        "application/octet-stream"@
    }
}

/// The media type under which the file at `path` is served, told by the
/// extension of its file name. Slashes and `.` segments at the end of the
/// path are passed over, so that `x.html/` is served as `x.html` is.
pub fn content_type(path: &str) -> (r: &'static str)
    ensures
        r@ == media_type(extension_of(path@)),
{
    let v = chars_of(path);
    let mut n: usize = v.len();
    while n > 0 && (v[n - 1] == '/' || (v[n - 1] == '.' && (n == 1 || v[n - 2] == '/')))
        invariant
            n <= v.len(),
            name_end(v@, v.len() as int) == name_end(v@, n as int),
        decreases n,
    {
        n -= 1;
    }
    let slash = find_last(&v, 0, n, '/');
    let name: usize = if slash < n {
        slash + 1
    } else {
        0
    };
    let dot = find_last(&v, name, n, '.');
    let from: usize = if name < dot && dot < n {
        dot + 1
    } else {
        n
    };
    assert(v@.subrange(from as int, n as int) =~= extension_of(path@));
    if window_is(&v, from, n, &chars_of("html")) {
        "text/html; charset=utf-8"
    } else if window_is(&v, from, n, &chars_of("css")) {
        "text/css; charset=utf-8"
    } else if window_is(&v, from, n, &chars_of("js")) {
        "application/javascript; charset=utf-8"
    } else if window_is(&v, from, n, &chars_of("json")) {
        "application/json; charset=utf-8"
    } else if window_is(&v, from, n, &chars_of("svg")) {
        "image/svg+xml"
    } else if window_is(&v, from, n, &chars_of("png")) {
        "image/png"
    } else if window_is(&v, from, n, &chars_of("jpg")) || window_is(&v, from, n, &chars_of("jpeg")) {
        "image/jpeg"
    } else if window_is(&v, from, n, &chars_of("ico")) {
        "image/x-icon"
    } else if window_is(&v, from, n, &chars_of("woff")) {
        "font/woff"
    } else if window_is(&v, from, n, &chars_of("woff2")) {
        "font/woff2"
    } else if window_is(&v, from, n, &chars_of("ttf")) {
        "font/ttf"
    } else {
        "application/octet-stream"
    }
}

/// Where the method of a request starts: at the first token of its first
/// line.
pub open spec fn method_from(s: Seq<char>) -> int {
    skip_spaces(s, 0, line_end(s, 0))
}

/// Where the method of a request ends.
pub open spec fn method_to(s: Seq<char>) -> int {
    token_end(s, method_from(s), line_end(s, 0))
}

/// Where the path of a request starts: at the second token of its first
/// line.
pub open spec fn path_from(s: Seq<char>) -> int {
    skip_spaces(s, method_to(s), line_end(s, 0))
}

/// Where the path of a request ends.
pub open spec fn path_to(s: Seq<char>) -> int {
    token_end(s, path_from(s), line_end(s, 0))
}

/// The method of a request; empty where its first line is blank.
pub open spec fn request_method(s: Seq<char>) -> Seq<char> {
    s.subrange(method_from(s), method_to(s))
}

/// The path of a request; `/` where its first line names none.
pub open spec fn request_path(s: Seq<char>) -> Seq<char> {
    if path_from(s) < line_end(s, 0) {
        s.subrange(path_from(s), path_to(s))
    } else {
        "/"@
    }
}

/// Splits the first line of a request into its method and its path.
pub fn request_line<'a>(req: &'a str) -> (r: (&'a str, &'a str))
    ensures
        r.0@ == request_method(req@),
        r.1@ == request_path(req@),
{
    let v = chars_of(req);
    let e = find_line_end(&v, 0);
    let a0 = find_non_space(&v, 0, e);
    let b0 = find_space(&v, a0, e);
    let a1 = find_non_space(&v, b0, e);
    let b1 = find_space(&v, a1, e);
    let method = req.substring_char(a0, b0);
    let path = if a1 < e {
        req.substring_char(a1, b1)
    } else {
        "/"
    };
    (method, path)
}

/// What the control plane does with a request.
#[derive(Clone, Debug)]
pub enum Route {
    /// Report the statistics.
    Stats,
    /// Update the configuration from the form in the request's body.
    Config,
    /// Refuse the method.
    MethodNotAllowed,
    /// Refuse the path.
    BadRequest,
    /// Serve the file at `path`, which is relative to the asset directory.
    Asset { path: String },
}

/// Whether a path tries to climb out of the asset directory.
pub open spec fn climbs(path: Seq<char>) -> bool {
    first_match(path, 0, path.len() as int, ".."@) < path.len()
}

/// The file that a path names, relative to the asset directory: the index
/// document for `/`, and else the path without its leading slashes.
pub open spec fn asset_path(path: Seq<char>) -> Seq<char> {
    if path == "/"@ {
        "index.html"@
    } else {
        path.subrange(first_stop(path, 0, path.len() as int, Stop::Not('/')), path.len() as int)
    }
}

/// Whether `route` is what the control plane does with the request `s`.
///
/// `GET /stats` reports and `POST /config` updates. Any other request that
/// is no `GET` is refused, and so is a path that holds `..`; every other path
/// names an asset.
pub open spec fn routes_to(s: Seq<char>, route: Route) -> bool {
    let method = request_method(s);
    let path = request_path(s);
    if method == "GET"@ && path == "/stats"@ {
        route is Stats
    } else if method == "POST"@ && path == "/config"@ {
        route is Config
    } else if method != "GET"@ {
        route is MethodNotAllowed
    } else if climbs(path) {
        route is BadRequest
    } else {
        route matches Route::Asset { path: file } && file@ == asset_path(path)
    }
}

/// Routes a request of the control plane by its first line.
pub fn route(req: &str) -> (r: Route)
    ensures
        routes_to(req@, r),
{
    let (method, path) = request_line(req);
    let m = chars_of(method);
    let p = chars_of(path);
    let get = text_is(&m, &chars_of("GET"));
    if get && text_is(&p, &chars_of("/stats")) {
        return Route::Stats;
    }
    if text_is(&m, &chars_of("POST")) && text_is(&p, &chars_of("/config")) {
        return Route::Config;
    }
    if !get {
        return Route::MethodNotAllowed;
    }
    let n = p.len();
    if find_text(&p, 0, n, &chars_of("..")) < n {
        return Route::BadRequest;
    }
    if text_is(&p, &chars_of("/")) {
        return Route::Asset { path: "index.html".to_owned() };
    }
    let from = find_other(&p, 0, n, '/');
    Route::Asset { path: path.substring_char(from, n).to_owned() }
}

/// Whether a request carries a form: a blank line ends its head.
pub open spec fn has_form(s: Seq<char>) -> bool {
    first_match(s, 0, s.len() as int, "\r\n\r\n"@) < s.len()
}

/// Where the form of a request starts: after the first blank line.
pub open spec fn form_from(s: Seq<char>) -> int {
    first_match(s, 0, s.len() as int, "\r\n\r\n"@) + 4
}

/// Where the form of a request ends: at the next blank line, or at the end.
pub open spec fn form_to(s: Seq<char>) -> int {
    first_match(s, form_from(s), s.len() as int, "\r\n\r\n"@)
}

/// Updates the configuration from the form that a `POST /config` request
/// carries. Says whether the request carried a form at all; without one the
/// configuration stays as it is.
pub fn apply_config_request(cfg: &mut ShapingConfig, req: &str) -> (updated: bool)
    ensures
        updated == has_form(req@),
        *final(cfg) == if has_form(req@) {
            form_applied(req@, form_from(req@), form_to(req@), *old(cfg))
        } else {
            *old(cfg)
        },
        old(cfg).wf() ==> final(cfg).wf(),
{
    let v = chars_of(req);
    let n = v.len();
    let blank = chars_of("\r\n\r\n");
    proof {
        reveal_strlit("\r\n\r\n");
    }
    let head_end = find_text(&v, 0, n, &blank);
    if head_end < n {
        let from = head_end + 4;
        let to = find_text(&v, from, n, &blank);
        cfg.apply_form_window(&v, from, to);
        true
    } else {
        false
    }
}

/// The replies that carry no body.
#[derive(Clone, Copy, Debug, PartialEq, Eq, Structural)]
pub enum Status {
    /// 204: done, nothing to send.
    NoContent,
    /// 400: the path is refused.
    BadRequest,
    /// 404: there is no such asset.
    NotFound,
    /// 405: the method is refused.
    MethodNotAllowed,
}

/// The text of a reply without a body.
pub open spec fn empty_reply_text(status: Status) -> Seq<char> {
    match status {
        Status::NoContent => "HTTP/1.1 204 No Content\r\nContent-Length: 0\r\n\r\n"@,
        Status::BadRequest => "HTTP/1.1 400 Bad Request\r\nContent-Length: 0\r\n\r\n"@,
        Status::NotFound => "HTTP/1.1 404 Not Found\r\nContent-Length: 0\r\n\r\n"@,
        Status::MethodNotAllowed => "HTTP/1.1 405 Method Not Allowed\r\nContent-Length: 0\r\n\r\n"@,
    }
}

/// The reply that carries no body and says `status`.
pub fn empty_reply(status: Status) -> (r: &'static str)
    ensures
        r@ == empty_reply_text(status),
{
    match status {
        Status::NoContent => "HTTP/1.1 204 No Content\r\nContent-Length: 0\r\n\r\n",
        Status::BadRequest => "HTTP/1.1 400 Bad Request\r\nContent-Length: 0\r\n\r\n",
        Status::NotFound => "HTTP/1.1 404 Not Found\r\nContent-Length: 0\r\n\r\n",
        Status::MethodNotAllowed => "HTTP/1.1 405 Method Not Allowed\r\nContent-Length: 0\r\n\r\n",
    }
}

/// The head of a reply that carries `len` bytes of the media type `media`.
pub open spec fn reply_head(media: Seq<char>, len: nat) -> Seq<char> {
    "HTTP/1.1 200 OK\r\nContent-Type: "@ + media + "\r\nContent-Length: "@ + decimal_text(len)
        + "\r\n\r\n"@
}

/// The head of the reply that serves an asset of `len` bytes.
pub fn asset_head(media: &str, len: u64) -> (head: String)
    ensures
        head@ == reply_head(media@, len as nat),
{
    let mut head = "HTTP/1.1 200 OK\r\nContent-Type: ".to_owned();
    head.append(media);
    head.append("\r\nContent-Length: ");
    push_decimal(&mut head, len);
    head.append("\r\n\r\n");
    head
}

/// The reply to `GET /stats`: the statistics in JSON, with the length of
/// the body in bytes in its head.
pub fn stats_reply(stats: &Stats) -> (reply: String)
    ensures
        ({
            let body = stats_json(
                stats.bytes_delayed,
                stats.packets_dropped,
                stats.status_message@,
            );
            reply@ == reply_head("application/json"@, encode_utf8(body).len()) + body
        }),
{
    let body = stats.to_json();
    let len = body.as_str().as_bytes().len();
    let mut reply = asset_head("application/json", len as u64);
    reply.append(body.as_str());
    reply
}

/// How many status messages there are.
pub const STATUS_MESSAGES: u64 = 6;

/// The status message of the given number.
pub open spec fn status_text(index: u64) -> Seq<char> {
    if index == 0 {
        "NETWORK IS HAVING A BAD DAY"@
    } else if index == 1 {
        "PACKETS TOOK THE SCENIC ROUTE"@
    } else if index == 2 {
        "THE CABLES ARE TANGLED AGAIN"@
    } else if index == 3 {
        "SOMEONE UNPLUGGED THE INTERNET"@
    } else if index == 4 {
        "LATENCY IS A STATE OF MIND"@
    } else {
        "BANDWIDTH WENT OUT FOR LUNCH"@
    }
}

/// The status message of the given number.
pub fn status_message(index: u64) -> (r: &'static str)
    requires
        index < STATUS_MESSAGES,
    ensures
        r@ == status_text(index),
{
    if index == 0 {
        "NETWORK IS HAVING A BAD DAY"
    } else if index == 1 {
        "PACKETS TOOK THE SCENIC ROUTE"
    } else if index == 2 {
        "THE CABLES ARE TANGLED AGAIN"
    } else if index == 3 {
        "SOMEONE UNPLUGGED THE INTERNET"
    } else if index == 4 {
        "LATENCY IS A STATE OF MIND"
    } else {
        "BANDWIDTH WENT OUT FOR LUNCH"
    }
}

/// A status message picked at random.
pub fn random_goofy() -> (message: String)
    ensures
        exists|index: u64| index < STATUS_MESSAGES && message@ == #[trigger] status_text(index),
{
    let index = random_between(0, STATUS_MESSAGES - 1);
    status_message(index).to_owned()
}

} // verus!
