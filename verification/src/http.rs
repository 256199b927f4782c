//! The plain HTTP/1.1 exchanges with the daemon: request texts, reading the
//! body out of a response, and the project start/stop calls.

use vstd::prelude::*;

use crate::json::{json_parse, parse_json, Json};
use crate::text::{
    chars_of, contains, contains_exec, decimal, find_exec, find_from, is_hex_digit, matches_at,
    push_decimal, string_of_range, trim, trimmed,
};

verus! {

// ------------------------------------------------------------------------
// Requests
// ------------------------------------------------------------------------

/// `127.0.0.1:<port>`, the daemon's address.
pub open spec fn local_address_spec(port: u16) -> Seq<char> {
    "127.0.0.1:"@ + decimal(port as nat)
}

/// A `GET` of `path` on the daemon, closing the connection afterwards.
pub open spec fn get_request(port: u16, path: Seq<char>) -> Seq<char> {
    "GET "@ + path + " HTTP/1.1\r\nHost: 127.0.0.1:"@ + decimal(port as nat)
        + "\r\nConnection: close\r\n\r\n"@
}

/// An empty `POST` to `path` on the daemon, closing the connection afterwards.
pub open spec fn post_request(port: u16, path: Seq<char>) -> Seq<char> {
    "POST "@ + path + " HTTP/1.1\r\nHost: 127.0.0.1:"@ + decimal(port as nat)
        + "\r\nContent-Length: 0\r\nConnection: close\r\n\r\n"@
}

/// `/api/projects/<name>/<action>`.
pub open spec fn project_action_path(name: Seq<char>, action: Seq<char>) -> Seq<char> {
    "/api/projects/"@ + name + "/"@ + action
}

/// The daemon's address, to connect to.
pub fn local_address(port: u16) -> (r: String)
    ensures
        r@ == local_address_spec(port),
{
    let mut r = String::from_str("127.0.0.1:");
    push_decimal(&mut r, port as u128);
    r
}

/// The text of a `GET` request for `path`.
pub fn get_request_text(port: u16, path: &str) -> (r: String)
    ensures
        r@ == get_request(port, path@),
{
    let mut r = String::from_str("GET ");
    r.append(path);
    r.append(" HTTP/1.1\r\nHost: 127.0.0.1:");
    push_decimal(&mut r, port as u128);
    r.append("\r\nConnection: close\r\n\r\n");
    r
}

/// The text of an empty `POST` request to `path`.
pub fn post_request_text(port: u16, path: &str) -> (r: String)
    ensures
        r@ == post_request(port, path@),
{
    let mut r = String::from_str("POST ");
    r.append(path);
    r.append(" HTTP/1.1\r\nHost: 127.0.0.1:");
    push_decimal(&mut r, port as u128);
    r.append("\r\nContent-Length: 0\r\nConnection: close\r\n\r\n");
    r
}

/// The request for the daemon's health report, which lists the active
/// projects (`GET /api/health`).
pub fn health_request(port: u16) -> (r: String)
    ensures
        r@ == get_request(port, "/api/health"@),
{
    get_request_text(port, "/api/health")
}

/// The request for the task list (`GET /api/tasks`).
pub fn tasks_request(port: u16) -> (r: String)
    ensures
        r@ == get_request(port, "/api/tasks"@),
{
    get_request_text(port, "/api/tasks")
}

fn project_action_request(port: u16, name: &str, action: &str) -> (r: String)
    ensures
        r@ == post_request(port, project_action_path(name@, action@)),
{
    let mut path = String::from_str("/api/projects/");
    path.append(name);
    path.append("/");
    path.append(action);
    post_request_text(port, path.as_str())
}

/// The request that starts a project (`POST /api/projects/<name>/start`).
/// Sending it, and reading the answer with [`post_succeeded`], is the
/// caller's part.
pub fn start_project(port: u16, name: &str) -> (r: String)
    ensures
        r@ == post_request(port, project_action_path(name@, "start"@)),
{
    project_action_request(port, name, "start")
}

/// The request that stops a project (`POST /api/projects/<name>/stop`).
pub fn stop_project(port: u16, name: &str) -> (r: String)
    ensures
        r@ == post_request(port, project_action_path(name@, "stop"@)),
{
    project_action_request(port, name, "stop")
}

/// Whether a `POST` answer reports success: it mentions `200 OK`.
pub fn post_succeeded(response: &str) -> (r: bool)
    ensures
        r == contains(response@, "200 OK"@),
{
    contains_exec(response, "200 OK")
}

// ------------------------------------------------------------------------
// Responses
// ------------------------------------------------------------------------

/// The blank line between headers and body.
pub open spec fn blank_line() -> Seq<char> {
    seq!['\r', '\n', '\r', '\n']
}

/// The line break.
pub open spec fn crlf() -> Seq<char> {
    seq!['\r', '\n']
}

/// The second piece of `s` split at `sep` (`s.split(sep).nth(1)`): what lies
/// between the first and the second separator, or after the first one when
/// there is no second.
pub open spec fn second_piece(s: Seq<char>, sep: Seq<char>) -> Option<Seq<char>> {
    match find_from(s, sep, 0) {
        None => None,
        Some(i) => {
            let rest = s.subrange(i + sep.len(), s.len() as int);
            match find_from(rest, sep, 0) {
                None => Some(rest),
                Some(j) => Some(rest.subrange(0, j)),
            }
        },
    }
}

/// The body of a response: the piece after the first blank line, up to a
/// second blank line if there is one.
pub open spec fn http_body_spec(response: Seq<char>) -> Option<Seq<char>> {
    second_piece(response, blank_line())
}

/// The second line of `s` (`s.lines().nth(1)`): lines end at `\n`, and a
/// `\r` right before that `\n` is not part of the line.
pub open spec fn second_line(s: Seq<char>) -> Option<Seq<char>> {
    match find_from(s, seq!['\n'], 0) {
        None => None,
        Some(k) => {
            let rest = s.subrange(k + 1, s.len() as int);
            if rest.len() == 0 {
                None
            } else {
                match find_from(rest, seq!['\n'], 0) {
                    None => Some(rest),
                    Some(m) => {
                        let line = rest.subrange(0, m);
                        if line.len() > 0 && line.last() == '\r' {
                            Some(line.drop_last())
                        } else {
                            Some(line)
                        }
                    },
                }
            }
        },
    }
}

/// The JSON text of a body: a chunked body (several lines, the first
/// starting with a hexadecimal digit) gives its second line, else the
/// whole body.
pub open spec fn chunk_text(body: Seq<char>) -> Seq<char> {
    if contains(body, crlf()) && is_hex_digit(body[0]) {
        match second_line(body) {
            Some(l) => l,
            None => body,
        }
    } else {
        body
    }
}

/// The trimmed JSON text carried by a response, if it has a body.
pub open spec fn response_json_text_spec(response: Seq<char>) -> Option<Seq<char>> {
    match http_body_spec(response) {
        None => None,
        Some(b) => Some(trim(chunk_text(b))),
    }
}

/// `(lo, hi)` such that `v[lo..hi]` is `second_piece(v, sep)`.
fn second_piece_bounds(v: &Vec<char>, sep: &Vec<char>) -> (r: Option<(usize, usize)>)
    ensures
        match r {
            None => second_piece(v@, sep@) is None,
            Some((lo, hi)) => lo <= hi <= v.len() && second_piece(v@, sep@) == Some(
                v@.subrange(lo as int, hi as int),
            ),
        },
{
    match find_exec(v, sep, 0) {
        None => None,
        Some(i) => {
            let len = v.len();
            assert(matches_at(v@, sep@, i as int));
            let lo = i + sep.len();
            let ghost rest = v@.subrange(lo as int, len as int);
            match find_exec(v, sep, lo) {
                None => {
                    proof {
                        lemma_find_shift(v@, sep@, lo as int);
                    }
                    Some((lo, len))
                },
                Some(j) => {
                    proof {
                        lemma_find_shift(v@, sep@, lo as int);
                        assert(rest.subrange(0, j - lo) =~= v@.subrange(lo as int, j as int));
                    }
                    Some((lo, j))
                },
            }
        },
    }
}

/// Searching the tail of `s` from 0 is searching `s` from where the tail
/// starts, shifted.
proof fn lemma_find_shift(s: Seq<char>, pat: Seq<char>, lo: int)
    requires
        0 <= lo <= s.len(),
    ensures
        ({
            let rest = s.subrange(lo, s.len() as int);
            match find_from(s, pat, lo) {
                None => find_from(rest, pat, 0) is None,
                Some(j) => lo <= j && find_from(rest, pat, 0) == Some(j - lo),
            }
        }),
{
    lemma_find_shift_from(s, pat, lo, 0);
}

proof fn lemma_find_shift_from(s: Seq<char>, pat: Seq<char>, lo: int, k: int)
    requires
        0 <= lo <= s.len(),
        0 <= k,
    ensures
        ({
            let rest = s.subrange(lo, s.len() as int);
            match find_from(s, pat, lo + k) {
                None => find_from(rest, pat, k) is None,
                Some(j) => lo <= j && find_from(rest, pat, k) == Some(j - lo),
            }
        }),
    decreases s.len() - lo - k,
{
    let rest = s.subrange(lo, s.len() as int);
    if lo + k + pat.len() > s.len() {
    } else {
        assert(rest.subrange(k, k + pat.len()) =~= s.subrange(lo + k, lo + k + pat.len()));
        if pat.len() == 0 {
            assert(s.subrange(lo + k, lo + k) =~= pat);
        }
        if !matches_at(s, pat, lo + k) {
            lemma_find_shift_from(s, pat, lo, k + 1);
        }
    }
}

/// The body of a response (`response.split("\r\n\r\n").nth(1)`).
pub fn http_body(response: &str) -> (r: Option<String>)
    ensures
        match r {
            None => http_body_spec(response@) is None,
            Some(b) => http_body_spec(response@) == Some(b@),
        },
{
    let v = chars_of(response);
    let sep: Vec<char> = vec!['\r', '\n', '\r', '\n'];
    assert(sep@ =~= blank_line());
    match second_piece_bounds(&v, &sep) {
        None => None,
        Some((lo, hi)) => Some(string_of_range(&v, lo, hi)),
    }
}

/// The JSON text of a body, chunk framing removed.
pub fn chunk_text_exec(body: &str) -> (r: String)
    ensures
        r@ == chunk_text(body@),
{
    let v = chars_of(body);
    let crlf_v: Vec<char> = vec!['\r', '\n'];
    assert(crlf_v@ =~= crlf());
    let multi = find_exec(&v, &crlf_v, 0).is_some();
    if !(multi && is_hex_digit_char(v[0])) {
        return String::from_str(body);
    }
    let nl: Vec<char> = vec!['\n'];
    assert(nl@ =~= seq!['\n']);
    match find_exec(&v, &nl, 0) {
        None => String::from_str(body),
        Some(k) => {
            let len = v.len();
            assert(matches_at(v@, nl@, k as int));
            let lo = k + 1;
            if lo == len {
                return String::from_str(body);
            }
            let ghost rest = v@.subrange(lo as int, len as int);
            proof {
                lemma_find_shift(v@, nl@, lo as int);
            }
            let hi = match find_exec(&v, &nl, lo) {
                None => v.len(),
                Some(m) => {
                    let ghost line = rest.subrange(0, m - lo);
                    assert(line =~= v@.subrange(lo as int, m as int));
                    if m > lo && v[m - 1] == '\r' {
                        assert(line.drop_last() =~= v@.subrange(lo as int, m - 1));
                        m - 1
                    } else {
                        m
                    }
                },
            };
            string_of_range(&v, lo, hi)
        },
    }
}

/// `char::is_ascii_hexdigit`.
pub fn is_hex_digit_char(c: char) -> (b: bool)
    ensures
        b == is_hex_digit(c),
{
    ('0' <= c && c <= '9') || ('a' <= c && c <= 'f') || ('A' <= c && c <= 'F')
}

/// The trimmed JSON text carried by a response, if it has a body.
pub fn response_json_text(response: &str) -> (r: Option<String>)
    ensures
        match r {
            None => response_json_text_spec(response@) is None,
            Some(t) => response_json_text_spec(response@) == Some(t@),
        },
{
    match http_body(response) {
        None => None,
        Some(b) => {
            let c = chunk_text_exec(b.as_str());
            Some(trimmed(c.as_str()))
        },
    }
}

/// The JSON document carried by a response, if any.
pub open spec fn response_doc(response: Seq<char>) -> Option<Json> {
    match response_json_text_spec(response) {
        None => None,
        Some(t) => json_parse(t),
    }
}

/// The JSON document of a response, as the poller reads it: `None` when
/// there is no body or the body is no JSON.
pub fn parse_response_json(response: &str) -> (r: Option<Json>)
    ensures
        r == response_doc(response@),
{
    match response_json_text(response) {
        None => None,
        Some(t) => parse_json(t.as_str()),
    }
}

} // verus!
