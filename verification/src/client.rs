//! The protocol layer's typed operations, as request descriptors and reply
//! rules: status and serve-config reads, the concurrency-token write, the
//! event-stream request, and the session-id extraction from event lines.
use crate::error::LocalApiError;
use crate::error::LocalApiErrorV;
use crate::json::jobj_get;
use crate::json::jstr;
use crate::json::jv_as_str;
use crate::json::jv_obj_get;
use crate::json::JVal;
use crate::json::JsonValue;
use crate::strutil::u64_to_string;
use crate::transport::TransportRequest;
use vstd::prelude::*;
use vstd::string::StrSliceExecFns;
use vstd::string::StringExecFns;

verus! {

/// The event classes requested from the event stream: initial state only.
pub const WATCH_MASK_INITIAL_STATE: u64 = 2;

/// The per-line cap, in bytes, bounding the stream reader's memory.
pub const MAX_WATCH_LINE: usize = 1024 * 1024;

/// The status read.
pub fn get_status_request() -> (r: TransportRequest)
    ensures
        r@.method == "GET"@,
        r@.path == "/localapi/v0/status"@,
        r@.headers.len() == 0,
        r@.body is None,
{
    proof {
        reveal_strlit("/localapi/v0/status");
    }
    TransportRequest::new("GET".to_owned(), "/localapi/v0/status".to_owned())
}

/// The serving-configuration read; the reply's entity tag is the concurrency
/// token.
pub fn get_serve_config_request() -> (r: TransportRequest)
    ensures
        r@.method == "GET"@,
        r@.path == "/localapi/v0/serve-config"@,
        r@.headers.len() == 0,
        r@.body is None,
{
    proof {
        reveal_strlit("/localapi/v0/serve-config");
    }
    TransportRequest::new("GET".to_owned(), "/localapi/v0/serve-config".to_owned())
}

/// The serving-configuration write: a JSON body, and, when a concurrency
/// token is supplied, an if-match precondition carrying it.
pub fn set_serve_config_request(body: Vec<u8>, etag: Option<String>) -> (r: TransportRequest)
    ensures
        r@.method == "POST"@,
        r@.path == "/localapi/v0/serve-config"@,
        r@.body == Some(body@),
        match etag {
            Some(t) => r@.headers == seq![
                ("content-type"@, "application/json"@),
                ("if-match"@, t@),
            ],
            None => r@.headers == seq![("content-type"@, "application/json"@)],
        },
{
    proof {
        reveal_strlit("/localapi/v0/serve-config");
    }
    let base = TransportRequest::new("POST".to_owned(), "/localapi/v0/serve-config".to_owned());
    let mut request = base.with_body(body);
    request.push_header("content-type".to_owned(), "application/json".to_owned());
    proof {
        assert(request@.headers =~= seq![("content-type"@, "application/json"@)]);
    }
    match etag {
        Some(etag_value) => {
            let ghost tv = etag_value@;
            request.push_header("if-match".to_owned(), etag_value);
            proof {
                assert(request@.headers =~= seq![
                    ("content-type"@, "application/json"@),
                    ("if-match"@, tv),
                ]);
            }
        },
        None => {},
    }
    request
}

/// The event-stream request, asking for initial-state events only.
pub fn watch_ipn_bus_request() -> (r: TransportRequest)
    ensures
        r@.method == "GET"@,
        r@.path == "/localapi/v0/watch-ipn-bus?mask="@ + crate::strutil::dec_digits(
            WATCH_MASK_INITIAL_STATE as nat,
        ),
        r@.headers.len() == 0,
        r@.body is None,
{
    proof {
        reveal_strlit("/localapi/v0/watch-ipn-bus?mask=");
    }
    let mut path = "/localapi/v0/watch-ipn-bus?mask=".to_owned();
    let mask = u64_to_string(WATCH_MASK_INITIAL_STATE);
    path.append(mask.as_str());
    proof {
        assert(path@[0] == '/');
    }
    TransportRequest::new("GET".to_owned(), path)
}

/// Accepts exactly an OK reply; any other status becomes a typed status
/// error carrying the method, path, and reply body.
pub fn ensure_status_ok(status: u16, method: String, path: String, body: String) -> (r: Result<
    (),
    LocalApiError,
>)
    ensures
        match r {
            Ok(()) => status == 200,
            Err(e) => status != 200 && e@ == (LocalApiErrorV::HttpStatus {
                status,
                method: method@,
                path: path@,
                body: body@,
            }),
        },
{
    if status == 200 {
        return Ok(());
    }
    Err(LocalApiError::HttpStatus { status, method, path, body })
}

/// A reply body's text, with a placeholder when it was empty.
pub fn body_text_or_placeholder(body: String) -> (r: String)
    ensures
        body@.len() == 0 ==> r@ == "<empty>"@,
        body@.len() > 0 ==> r@ == body@,
{
    if body.as_str().unicode_len() == 0 {
        "<empty>".to_owned()
    } else {
        body
    }
}

/// The first of the session-id spellings that holds a string, unfiltered.
pub open spec fn raw_session_id(v: JVal) -> Option<Seq<char>> {
    match jobj_get(v, "SessionID"@) {
        Some(x) if jstr(x) is Some => jstr(x),
        _ => match jobj_get(v, "session_id"@) {
            Some(x) if jstr(x) is Some => jstr(x),
            _ => match jobj_get(v, "sessionId"@) {
                Some(x) => jstr(x),
                None => None,
            },
        },
    }
}

/// The session id an event line yields: the first string under one of the
/// historical field spellings, and only when nonempty.
pub open spec fn session_id_of(v: JVal) -> Option<Seq<char>> {
    match raw_session_id(v) {
        Some(s) => if s.len() > 0 {
            Some(s)
        } else {
            None
        },
        None => None,
    }
}

/// Extracts the caller's session id from one parsed event line, if the line
/// carries one.
pub fn parse_session_id(v: &JsonValue) -> (r: Option<String>)
    ensures
        match r {
            Some(s) => session_id_of(v@) == Some(s@),
            None => session_id_of(v@) is None,
        },
{
    let found: Option<&String> = match jv_obj_get(v, "SessionID") {
        Some(x) => match jv_as_str(x) {
            Some(s) => Some(s),
            None => fallback_session_id(v),
        },
        None => fallback_session_id(v),
    };
    match found {
        Some(s) => {
            if s.as_str().unicode_len() > 0 {
                Some(s.clone())
            } else {
                None
            }
        },
        None => None,
    }
}

fn fallback_session_id<'a>(v: &'a JsonValue) -> (r: Option<&'a String>)
    ensures
        ({
            let raw = match jobj_get(v@, "session_id"@) {
                Some(x) if jstr(x) is Some => jstr(x),
                _ => match jobj_get(v@, "sessionId"@) {
                    Some(x) => jstr(x),
                    None => None,
                },
            };
            match r {
                Some(s) => raw == Some(s@),
                None => raw is None,
            }
        }),
{
    match jv_obj_get(v, "session_id") {
        Some(x) => match jv_as_str(x) {
            Some(s) => {
                return Some(s);
            },
            None => {},
        },
        None => {},
    }
    match jv_obj_get(v, "sessionId") {
        Some(x) => jv_as_str(x),
        None => None,
    }
}

/// A serve-config read's reply: the concurrency token, when the daemon sent
/// one, and the configuration document.
#[derive(Debug, PartialEq)]
pub struct ServeConfigResponse {
    pub etag: Option<String>,
    pub config: JsonValue,
}

} // verus!
