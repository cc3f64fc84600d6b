//! Structural reading and writing of the serving configuration.
//!
//! `parse_serve_config` interprets a JSON tree as a `ServeConfig`; every
//! field it does not recognize, at every level, lands in an
//! `unknown_fields` list. `serve_config_to_json` rebuilds the tree; its
//! contract says the result parses back to the very same view, from which
//! the round-trip law below follows: unrecognized fields and values are
//! reproduced.
//!
//! Parsing folds an object's entries left to right. A recognized key with a
//! null value reads as the field's absence and the entry is dropped, as the
//! daemon's own clients read and re-emit it. A recognized key with any other
//! ill-typed value, or a recognized key repeating an already-set field,
//! fails the parse; every other entry is retained.
use crate::json::JsonValue;
use crate::strutil::all_digits;
use crate::strutil::dec_digits;
use crate::strutil::digit_char;
use crate::strutil::digit_val;
use crate::strutil::dec_val;
use crate::strutil::is_digit_char;
use crate::strutil::parse_u32_digits;
use crate::strutil::str_eq;
use crate::strutil::u16_to_string;
use crate::json::entries_view;
use crate::json::JVal;
use crate::types::funnel_view;
use crate::types::handlers_view;
use crate::types::tcp_view;
use crate::types::web_view;
use crate::types::HttpHandler;
use crate::types::HttpHandlerV;
use crate::types::ServeConfig;
use crate::types::ServeConfigV;
use crate::types::WebServerConfig;
use crate::types::WebServerConfigV;
use vstd::prelude::*;

verus! {

/// The handler-level keys this tool interprets.
pub open spec fn hh_known_key(k: Seq<char>) -> bool {
    ||| k == "Proxy"@
    ||| k == "Path"@
    ||| k == "Text"@
}

/// The per-host keys this tool interprets.
pub open spec fn wsc_known_key(k: Seq<char>) -> bool {
    k == "Handlers"@
}

/// The top-level keys this tool interprets.
pub open spec fn sc_known_key(k: Seq<char>) -> bool {
    ||| k == "Tcp"@
    ||| k == "Web"@
    ||| k == "AllowFunnel"@
    ||| k == "Foreground"@
}

pub open spec fn hh_empty() -> HttpHandlerV {
    HttpHandlerV { proxy: None, path: None, text: None, unknown: Seq::empty() }
}

/// One step of the handler parse: fold entry `e` into `acc`.
pub open spec fn hh_add(acc: HttpHandlerV, e: (Seq<char>, JVal)) -> Option<HttpHandlerV> {
    if e.0 == "Proxy"@ {
        if acc.proxy is Some {
            None
        } else if e.1 == JVal::Null {
            Some(acc)
        } else {
            match e.1 {
                JVal::Str(s) => Some(
                    HttpHandlerV {
                        proxy: Some(s),
                        path: acc.path,
                        text: acc.text,
                        unknown: acc.unknown,
                    },
                ),
                _ => None,
            }
        }
    } else if e.0 == "Path"@ {
        if acc.path is Some {
            None
        } else if e.1 == JVal::Null {
            Some(acc)
        } else {
            match e.1 {
                JVal::Str(s) => Some(
                    HttpHandlerV {
                        proxy: acc.proxy,
                        path: Some(s),
                        text: acc.text,
                        unknown: acc.unknown,
                    },
                ),
                _ => None,
            }
        }
    } else if e.0 == "Text"@ {
        if acc.text is Some {
            None
        } else if e.1 == JVal::Null {
            Some(acc)
        } else {
            match e.1 {
                JVal::Str(s) => Some(
                    HttpHandlerV {
                        proxy: acc.proxy,
                        path: acc.path,
                        text: Some(s),
                        unknown: acc.unknown,
                    },
                ),
                _ => None,
            }
        }
    } else {
        Some(
            HttpHandlerV {
                proxy: acc.proxy,
                path: acc.path,
                text: acc.text,
                unknown: acc.unknown.push(e),
            },
        )
    }
}

/// The handler parse over an object's entries.
pub open spec fn hh_fold(es: Seq<(Seq<char>, JVal)>) -> Option<HttpHandlerV>
    decreases es.len(),
{
    if es.len() == 0 {
        Some(hh_empty())
    } else {
        match hh_fold(es.drop_last()) {
            Some(acc) => hh_add(acc, es.last()),
            None => None,
        }
    }
}

/// What a JSON value means as a handler.
pub open spec fn hh_from_json(v: JVal) -> Option<HttpHandlerV> {
    match v {
        JVal::Obj(es) => hh_fold(es),
        _ => None,
    }
}

/// The handler-table parse: each value must be a handler object.
pub open spec fn handlers_fold(es: Seq<(Seq<char>, JVal)>) -> Option<
    Seq<(Seq<char>, HttpHandlerV)>,
>
    decreases es.len(),
{
    if es.len() == 0 {
        Some(Seq::empty())
    } else {
        match handlers_fold(es.drop_last()) {
            Some(acc) => match hh_from_json(es.last().1) {
                Some(h) => Some(acc.push((es.last().0, h))),
                None => None,
            },
            None => None,
        }
    }
}

pub open spec fn wsc_empty_acc() -> WebServerConfigV {
    WebServerConfigV { handlers: None, unknown: Seq::empty() }
}

/// One step of the per-host parse.
pub open spec fn wsc_add(acc: WebServerConfigV, e: (Seq<char>, JVal)) -> Option<
    WebServerConfigV,
> {
    if e.0 == "Handlers"@ {
        if acc.handlers is Some {
            None
        } else if e.1 == JVal::Null {
            Some(acc)
        } else {
            match e.1 {
                JVal::Obj(hes) => match handlers_fold(hes) {
                    Some(hs) => Some(WebServerConfigV { handlers: Some(hs), unknown: acc.unknown }),
                    None => None,
                },
                _ => None,
            }
        }
    } else {
        Some(WebServerConfigV { handlers: acc.handlers, unknown: acc.unknown.push(e) })
    }
}

/// The per-host parse over an object's entries.
pub open spec fn wsc_fold(es: Seq<(Seq<char>, JVal)>) -> Option<WebServerConfigV>
    decreases es.len(),
{
    if es.len() == 0 {
        Some(wsc_empty_acc())
    } else {
        match wsc_fold(es.drop_last()) {
            Some(acc) => wsc_add(acc, es.last()),
            None => None,
        }
    }
}

/// What a JSON value means as a per-host configuration.
pub open spec fn wsc_from_json(v: JVal) -> Option<WebServerConfigV> {
    match v {
        JVal::Obj(es) => wsc_fold(es),
        _ => None,
    }
}

/// The host-table parse: each value must be a per-host object.
pub open spec fn web_fold(es: Seq<(Seq<char>, JVal)>) -> Option<
    Seq<(Seq<char>, WebServerConfigV)>,
>
    decreases es.len(),
{
    if es.len() == 0 {
        Some(Seq::empty())
    } else {
        match web_fold(es.drop_last()) {
            Some(acc) => match wsc_from_json(es.last().1) {
                Some(w) => Some(acc.push((es.last().0, w))),
                None => None,
            },
            None => None,
        }
    }
}

/// The funnel-table parse: each value must be a boolean.
pub open spec fn funnel_fold(es: Seq<(Seq<char>, JVal)>) -> Option<Seq<(Seq<char>, bool)>>
    decreases es.len(),
{
    if es.len() == 0 {
        Some(Seq::empty())
    } else {
        match funnel_fold(es.drop_last()) {
            Some(acc) => match es.last().1 {
                JVal::Bool(b) => Some(acc.push((es.last().0, b))),
                _ => None,
            },
            None => None,
        }
    }
}

/// Whether a key of the opaque TCP table is a decimal port number.
pub open spec fn tcp_key_ok(k: Seq<char>) -> bool {
    k.len() > 0 && all_digits(k) && dec_val(k) <= u16::MAX
}

/// The TCP-table parse: keys must be port numbers; values stay opaque.
pub open spec fn tcp_fold(es: Seq<(Seq<char>, JVal)>) -> Option<Seq<(u16, JVal)>>
    decreases es.len(),
{
    if es.len() == 0 {
        Some(Seq::empty())
    } else {
        match tcp_fold(es.drop_last()) {
            Some(acc) => if tcp_key_ok(es.last().0) {
                Some(acc.push((dec_val(es.last().0) as u16, es.last().1)))
            } else {
                None
            },
            None => None,
        }
    }
}

/// One step of the top-level parse.
pub open spec fn sc_add(acc: ServeConfigV, e: (Seq<char>, JVal)) -> Option<ServeConfigV> {
    if e.0 == "Tcp"@ {
        if acc.tcp is Some {
            None
        } else if e.1 == JVal::Null {
            Some(acc)
        } else {
            match e.1 {
                JVal::Obj(tes) => match tcp_fold(tes) {
                    Some(t) => Some(
                        ServeConfigV {
                            tcp: Some(t),
                            web: acc.web,
                            allow_funnel: acc.allow_funnel,
                            foreground: acc.foreground,
                            unknown: acc.unknown,
                        },
                    ),
                    None => None,
                },
                _ => None,
            }
        }
    } else if e.0 == "Web"@ {
        if acc.web is Some {
            None
        } else if e.1 == JVal::Null {
            Some(acc)
        } else {
            match e.1 {
                JVal::Obj(wes) => match web_fold(wes) {
                    Some(w) => Some(
                        ServeConfigV {
                            tcp: acc.tcp,
                            web: Some(w),
                            allow_funnel: acc.allow_funnel,
                            foreground: acc.foreground,
                            unknown: acc.unknown,
                        },
                    ),
                    None => None,
                },
                _ => None,
            }
        }
    } else if e.0 == "AllowFunnel"@ {
        if acc.allow_funnel is Some {
            None
        } else if e.1 == JVal::Null {
            Some(acc)
        } else {
            match e.1 {
                JVal::Obj(fes) => match funnel_fold(fes) {
                    Some(f) => Some(
                        ServeConfigV {
                            tcp: acc.tcp,
                            web: acc.web,
                            allow_funnel: Some(f),
                            foreground: acc.foreground,
                            unknown: acc.unknown,
                        },
                    ),
                    None => None,
                },
                _ => None,
            }
        }
    } else if e.0 == "Foreground"@ {
        if acc.foreground is Some {
            None
        } else if e.1 == JVal::Null {
            Some(acc)
        } else {
            match e.1 {
                JVal::Obj(ges) => Some(
                    ServeConfigV {
                        tcp: acc.tcp,
                        web: acc.web,
                        allow_funnel: acc.allow_funnel,
                        foreground: Some(ges),
                        unknown: acc.unknown,
                    },
                ),
                _ => None,
            }
        }
    } else {
        Some(
            ServeConfigV {
                tcp: acc.tcp,
                web: acc.web,
                allow_funnel: acc.allow_funnel,
                foreground: acc.foreground,
                unknown: acc.unknown.push(e),
            },
        )
    }
}

/// The top-level parse over an object's entries.
pub open spec fn sc_fold(es: Seq<(Seq<char>, JVal)>) -> Option<ServeConfigV>
    decreases es.len(),
{
    if es.len() == 0 {
        Some(crate::types::sc_empty())
    } else {
        match sc_fold(es.drop_last()) {
            Some(acc) => sc_add(acc, es.last()),
            None => None,
        }
    }
}

/// What a JSON value means as a serving configuration.
pub open spec fn sc_from_json(v: JVal) -> Option<ServeConfigV> {
    match v {
        JVal::Obj(es) => sc_fold(es),
        _ => None,
    }
}

// ------------------------------------------------------------------
// executable parsing
// ------------------------------------------------------------------

/// A parse that failed on a prefix fails on the whole.
proof fn lemma_hh_fold_extend_none(es: Seq<(Seq<char>, JVal)>, i: int)
    requires
        0 <= i <= es.len(),
        hh_fold(es.take(i)) is None,
    ensures
        hh_fold(es) is None,
    decreases es.len() - i,
{
    if i < es.len() {
        assert(es.take(i + 1).drop_last() =~= es.take(i));
        lemma_hh_fold_extend_none(es, i + 1);
    } else {
        assert(es.take(i) =~= es);
    }
}

/// Reads a JSON value as a handler object.
pub fn parse_handler(v: JsonValue) -> (r: Option<HttpHandler>)
    ensures
        match r {
            Some(h) => hh_from_json(v@) == Some(h@),
            None => hh_from_json(v@) is None,
        },
{
    let mut es = match v {
        JsonValue::Obj(es) => es,
        _ => {
            return None;
        },
    };
    let ghost raw = es@;
    let ghost all = entries_view(raw);
    let mut proxy: Option<String> = None;
    let mut path: Option<String> = None;
    let mut text: Option<String> = None;
    let mut unknown: Vec<(String, JsonValue)> = Vec::new();
    let ghost mut i: int = 0;
    proof {
        assert(raw.skip(0) =~= raw);
        assert(all.take(0) =~= Seq::<(Seq<char>, JVal)>::empty());
        assert(entries_view(unknown@) =~= Seq::<(Seq<char>, JVal)>::empty());
    }
    while es.len() > 0
        invariant
            0 <= i <= all.len(),
            es@.len() == all.len() - i,
            es@ == raw.skip(i),
            hh_fold(all.take(i)) == Some(
                HttpHandlerV {
                    proxy: match proxy {
                        Some(s) => Some(s@),
                        None => None,
                    },
                    path: match path {
                        Some(s) => Some(s@),
                        None => None,
                    },
                    text: match text {
                        Some(s) => Some(s@),
                        None => None,
                    },
                    unknown: entries_view(unknown@),
                },
            ),
        decreases es@.len(),
    {
        let (k, val) = es.remove(0);
        proof {
            assert(raw.skip(i)[0] == raw[i]);
            assert(all[i] == (k@, val@));
            assert(all.take(i + 1).drop_last() =~= all.take(i));
            assert(all.take(i + 1).last() == all[i]);
            assert(es@ =~= raw.skip(i + 1));
        }
        if str_eq(k.as_str(), "Proxy") {
            if proxy.is_some() {
                proof {
                    lemma_hh_fold_extend_none(all, i + 1);
                }
                return None;
            }
            match val {
                JsonValue::Null => {},
                JsonValue::Str(s) => {
                    proxy = Some(s);
                },
                _ => {
                    proof {
                        lemma_hh_fold_extend_none(all, i + 1);
                    }
                    return None;
                },
            }
        } else if str_eq(k.as_str(), "Path") {
            if path.is_some() {
                proof {
                    lemma_hh_fold_extend_none(all, i + 1);
                }
                return None;
            }
            match val {
                JsonValue::Null => {},
                JsonValue::Str(s) => {
                    path = Some(s);
                },
                _ => {
                    proof {
                        lemma_hh_fold_extend_none(all, i + 1);
                    }
                    return None;
                },
            }
        } else if str_eq(k.as_str(), "Text") {
            if text.is_some() {
                proof {
                    lemma_hh_fold_extend_none(all, i + 1);
                }
                return None;
            }
            match val {
                JsonValue::Null => {},
                JsonValue::Str(s) => {
                    text = Some(s);
                },
                _ => {
                    proof {
                        lemma_hh_fold_extend_none(all, i + 1);
                    }
                    return None;
                },
            }
        } else {
            let ghost u0 = unknown@;
            unknown.push((k, val));
            proof {
                assert(entries_view(unknown@) =~= entries_view(u0).push((k@, val@)));
            }
        }
        proof {
            let acc0 = hh_fold(all.take(i)).unwrap();
            assert(hh_fold(all.take(i + 1)) == hh_add(acc0, all[i]));
            i = i + 1;
        }
    }
    proof {
        assert(all.take(i) =~= all);
    }
    Some(HttpHandler { proxy, path, text, unknown_fields: unknown })
}

proof fn lemma_handlers_fold_extend_none(es: Seq<(Seq<char>, JVal)>, i: int)
    requires
        0 <= i <= es.len(),
        handlers_fold(es.take(i)) is None,
    ensures
        handlers_fold(es) is None,
    decreases es.len() - i,
{
    if i < es.len() {
        assert(es.take(i + 1).drop_last() =~= es.take(i));
        lemma_handlers_fold_extend_none(es, i + 1);
    } else {
        assert(es.take(i) =~= es);
    }
}

/// Reads a handler table: every value must be a handler object.
pub fn parse_handlers(es: Vec<(String, JsonValue)>) -> (r: Option<Vec<(String, HttpHandler)>>)
    ensures
        match r {
            Some(hs) => handlers_fold(entries_view(es@)) == Some(handlers_view(hs@)),
            None => handlers_fold(entries_view(es@)) is None,
        },
{
    let ghost raw = es@;
    let ghost all = entries_view(raw);
    let mut es = es;
    let mut out: Vec<(String, HttpHandler)> = Vec::new();
    let ghost mut i: int = 0;
    proof {
        assert(raw.skip(0) =~= raw);
        assert(all.take(0) =~= Seq::<(Seq<char>, JVal)>::empty());
        assert(handlers_view(out@) =~= Seq::<(Seq<char>, HttpHandlerV)>::empty());
    }
    while es.len() > 0
        invariant
            0 <= i <= all.len(),
            es@.len() == all.len() - i,
            es@ == raw.skip(i),
            handlers_fold(all.take(i)) == Some(handlers_view(out@)),
        decreases es@.len(),
    {
        let (k, val) = es.remove(0);
        proof {
            assert(raw.skip(i)[0] == raw[i]);
            assert(all[i] == (k@, val@));
            assert(all.take(i + 1).drop_last() =~= all.take(i));
            assert(all.take(i + 1).last() == all[i]);
            assert(es@ =~= raw.skip(i + 1));
        }
        match parse_handler(val) {
            Some(h) => {
                out.push((k, h));
                proof {
                    assert(handlers_view(out@) =~= handlers_view(out@.drop_last()).push(
                        (out@.last().0@, out@.last().1@),
                    ));
                }
            },
            None => {
                proof {
                    lemma_handlers_fold_extend_none(all, i + 1);
                }
                return None;
            },
        }
        proof {
            i = i + 1;
        }
    }
    proof {
        assert(all.take(i) =~= all);
    }
    Some(out)
}

proof fn lemma_wsc_fold_extend_none(es: Seq<(Seq<char>, JVal)>, i: int)
    requires
        0 <= i <= es.len(),
        wsc_fold(es.take(i)) is None,
    ensures
        wsc_fold(es) is None,
    decreases es.len() - i,
{
    if i < es.len() {
        assert(es.take(i + 1).drop_last() =~= es.take(i));
        lemma_wsc_fold_extend_none(es, i + 1);
    } else {
        assert(es.take(i) =~= es);
    }
}

/// Reads a JSON value as a per-host configuration object.
pub fn parse_web_server_config(v: JsonValue) -> (r: Option<WebServerConfig>)
    ensures
        match r {
            Some(w) => wsc_from_json(v@) == Some(w@),
            None => wsc_from_json(v@) is None,
        },
{
    let mut es = match v {
        JsonValue::Obj(es) => es,
        _ => {
            return None;
        },
    };
    let ghost raw = es@;
    let ghost all = entries_view(raw);
    let mut handlers: Option<Vec<(String, HttpHandler)>> = None;
    let mut unknown: Vec<(String, JsonValue)> = Vec::new();
    let ghost mut i: int = 0;
    proof {
        assert(raw.skip(0) =~= raw);
        assert(all.take(0) =~= Seq::<(Seq<char>, JVal)>::empty());
        assert(entries_view(unknown@) =~= Seq::<(Seq<char>, JVal)>::empty());
    }
    while es.len() > 0
        invariant
            0 <= i <= all.len(),
            es@.len() == all.len() - i,
            es@ == raw.skip(i),
            wsc_fold(all.take(i)) == Some(
                WebServerConfigV {
                    handlers: match handlers {
                        Some(h) => Some(handlers_view(h@)),
                        None => None,
                    },
                    unknown: entries_view(unknown@),
                },
            ),
        decreases es@.len(),
    {
        let (k, val) = es.remove(0);
        proof {
            assert(raw.skip(i)[0] == raw[i]);
            assert(all[i] == (k@, val@));
            assert(all.take(i + 1).drop_last() =~= all.take(i));
            assert(all.take(i + 1).last() == all[i]);
            assert(es@ =~= raw.skip(i + 1));
        }
        if str_eq(k.as_str(), "Handlers") {
            if handlers.is_some() {
                proof {
                    lemma_wsc_fold_extend_none(all, i + 1);
                }
                return None;
            }
            match val {
                JsonValue::Null => {},
                JsonValue::Obj(hes) => match parse_handlers(hes) {
                    Some(hs) => {
                        handlers = Some(hs);
                    },
                    None => {
                        proof {
                            lemma_wsc_fold_extend_none(all, i + 1);
                        }
                        return None;
                    },
                },
                _ => {
                    proof {
                        lemma_wsc_fold_extend_none(all, i + 1);
                    }
                    return None;
                },
            }
        } else {
            let ghost u0 = unknown@;
            unknown.push((k, val));
            proof {
                assert(entries_view(unknown@) =~= entries_view(u0).push((k@, val@)));
            }
        }
        proof {
            let acc0 = wsc_fold(all.take(i)).unwrap();
            assert(wsc_fold(all.take(i + 1)) == wsc_add(acc0, all[i]));
            i = i + 1;
        }
    }
    proof {
        assert(all.take(i) =~= all);
    }
    Some(WebServerConfig { handlers, unknown_fields: unknown })
}

proof fn lemma_web_fold_extend_none(es: Seq<(Seq<char>, JVal)>, i: int)
    requires
        0 <= i <= es.len(),
        web_fold(es.take(i)) is None,
    ensures
        web_fold(es) is None,
    decreases es.len() - i,
{
    if i < es.len() {
        assert(es.take(i + 1).drop_last() =~= es.take(i));
        lemma_web_fold_extend_none(es, i + 1);
    } else {
        assert(es.take(i) =~= es);
    }
}

/// Reads a host table: every value must be a per-host object.
pub fn parse_web(es: Vec<(String, JsonValue)>) -> (r: Option<Vec<(String, WebServerConfig)>>)
    ensures
        match r {
            Some(ws) => web_fold(entries_view(es@)) == Some(web_view(ws@)),
            None => web_fold(entries_view(es@)) is None,
        },
{
    let ghost raw = es@;
    let ghost all = entries_view(raw);
    let mut es = es;
    let mut out: Vec<(String, WebServerConfig)> = Vec::new();
    let ghost mut i: int = 0;
    proof {
        assert(raw.skip(0) =~= raw);
        assert(all.take(0) =~= Seq::<(Seq<char>, JVal)>::empty());
        assert(web_view(out@) =~= Seq::<(Seq<char>, WebServerConfigV)>::empty());
    }
    while es.len() > 0
        invariant
            0 <= i <= all.len(),
            es@.len() == all.len() - i,
            es@ == raw.skip(i),
            web_fold(all.take(i)) == Some(web_view(out@)),
        decreases es@.len(),
    {
        let (k, val) = es.remove(0);
        proof {
            assert(raw.skip(i)[0] == raw[i]);
            assert(all[i] == (k@, val@));
            assert(all.take(i + 1).drop_last() =~= all.take(i));
            assert(all.take(i + 1).last() == all[i]);
            assert(es@ =~= raw.skip(i + 1));
        }
        match parse_web_server_config(val) {
            Some(w) => {
                out.push((k, w));
                proof {
                    assert(web_view(out@) =~= web_view(out@.drop_last()).push(
                        (out@.last().0@, out@.last().1@),
                    ));
                }
            },
            None => {
                proof {
                    lemma_web_fold_extend_none(all, i + 1);
                }
                return None;
            },
        }
        proof {
            i = i + 1;
        }
    }
    proof {
        assert(all.take(i) =~= all);
    }
    Some(out)
}

proof fn lemma_funnel_fold_extend_none(es: Seq<(Seq<char>, JVal)>, i: int)
    requires
        0 <= i <= es.len(),
        funnel_fold(es.take(i)) is None,
    ensures
        funnel_fold(es) is None,
    decreases es.len() - i,
{
    if i < es.len() {
        assert(es.take(i + 1).drop_last() =~= es.take(i));
        lemma_funnel_fold_extend_none(es, i + 1);
    } else {
        assert(es.take(i) =~= es);
    }
}

/// Reads a funnel table: every value must be a boolean.
pub fn parse_funnel(es: Vec<(String, JsonValue)>) -> (r: Option<Vec<(String, bool)>>)
    ensures
        match r {
            Some(fs) => funnel_fold(entries_view(es@)) == Some(funnel_view(fs@)),
            None => funnel_fold(entries_view(es@)) is None,
        },
{
    let ghost raw = es@;
    let ghost all = entries_view(raw);
    let mut es = es;
    let mut out: Vec<(String, bool)> = Vec::new();
    let ghost mut i: int = 0;
    proof {
        assert(raw.skip(0) =~= raw);
        assert(all.take(0) =~= Seq::<(Seq<char>, JVal)>::empty());
        assert(funnel_view(out@) =~= Seq::<(Seq<char>, bool)>::empty());
    }
    while es.len() > 0
        invariant
            0 <= i <= all.len(),
            es@.len() == all.len() - i,
            es@ == raw.skip(i),
            funnel_fold(all.take(i)) == Some(funnel_view(out@)),
        decreases es@.len(),
    {
        let (k, val) = es.remove(0);
        proof {
            assert(raw.skip(i)[0] == raw[i]);
            assert(all[i] == (k@, val@));
            assert(all.take(i + 1).drop_last() =~= all.take(i));
            assert(all.take(i + 1).last() == all[i]);
            assert(es@ =~= raw.skip(i + 1));
        }
        match val {
            JsonValue::Bool(b) => {
                out.push((k, b));
                proof {
                    assert(funnel_view(out@) =~= funnel_view(out@.drop_last()).push(
                        (out@.last().0@, out@.last().1),
                    ));
                }
            },
            _ => {
                proof {
                    lemma_funnel_fold_extend_none(all, i + 1);
                }
                return None;
            },
        }
        proof {
            i = i + 1;
        }
    }
    proof {
        assert(all.take(i) =~= all);
    }
    Some(out)
}

proof fn lemma_tcp_fold_extend_none(es: Seq<(Seq<char>, JVal)>, i: int)
    requires
        0 <= i <= es.len(),
        tcp_fold(es.take(i)) is None,
    ensures
        tcp_fold(es) is None,
    decreases es.len() - i,
{
    if i < es.len() {
        assert(es.take(i + 1).drop_last() =~= es.take(i));
        lemma_tcp_fold_extend_none(es, i + 1);
    } else {
        assert(es.take(i) =~= es);
    }
}

/// Reads the TCP table: keys must be port numbers; values stay opaque.
pub fn parse_tcp(es: Vec<(String, JsonValue)>) -> (r: Option<Vec<(u16, JsonValue)>>)
    ensures
        match r {
            Some(ts) => tcp_fold(entries_view(es@)) == Some(tcp_view(ts@)),
            None => tcp_fold(entries_view(es@)) is None,
        },
{
    let ghost raw = es@;
    let ghost all = entries_view(raw);
    let mut es = es;
    let mut out: Vec<(u16, JsonValue)> = Vec::new();
    let ghost mut i: int = 0;
    proof {
        assert(raw.skip(0) =~= raw);
        assert(all.take(0) =~= Seq::<(Seq<char>, JVal)>::empty());
        assert(out@ =~= Seq::<(u16, JsonValue)>::empty());
    }
    while es.len() > 0
        invariant
            0 <= i <= all.len(),
            es@.len() == all.len() - i,
            es@ == raw.skip(i),
            tcp_fold(all.take(i)) == Some(tcp_view(out@)),
        decreases es@.len(),
    {
        let (k, val) = es.remove(0);
        proof {
            assert(raw.skip(i)[0] == raw[i]);
            assert(all[i] == (k@, val@));
            assert(all.take(i + 1).drop_last() =~= all.take(i));
            assert(all.take(i + 1).last() == all[i]);
            assert(es@ =~= raw.skip(i + 1));
        }
        let port = match parse_u32_digits(k.as_str()) {
            Some(n) => {
                if n > u16::MAX as u32 {
                    proof {
                        lemma_tcp_fold_extend_none(all, i + 1);
                    }
                    return None;
                }
                n as u16
            },
            None => {
                proof {
                    lemma_tcp_fold_extend_none(all, i + 1);
                }
                return None;
            },
        };
        let ghost o0 = out@;
        out.push((port, val));
        proof {
            assert(tcp_view(out@) =~= tcp_view(o0).push((port, val@)));
        }
        proof {
            i = i + 1;
        }
    }
    proof {
        assert(all.take(i) =~= all);
    }
    Some(out)
}

proof fn lemma_sc_fold_extend_none(es: Seq<(Seq<char>, JVal)>, i: int)
    requires
        0 <= i <= es.len(),
        sc_fold(es.take(i)) is None,
    ensures
        sc_fold(es) is None,
    decreases es.len() - i,
{
    if i < es.len() {
        assert(es.take(i + 1).drop_last() =~= es.take(i));
        lemma_sc_fold_extend_none(es, i + 1);
    } else {
        assert(es.take(i) =~= es);
    }
}

/// Reads a JSON value as a serving configuration.
pub fn parse_serve_config(v: JsonValue) -> (r: Option<ServeConfig>)
    ensures
        match r {
            Some(c) => sc_from_json(v@) == Some(c@),
            None => sc_from_json(v@) is None,
        },
{
    let mut es = match v {
        JsonValue::Obj(es) => es,
        _ => {
            return None;
        },
    };
    let ghost raw = es@;
    let ghost all = entries_view(raw);
    let mut tcp: Option<Vec<(u16, JsonValue)>> = None;
    let mut web: Option<Vec<(String, WebServerConfig)>> = None;
    let mut allow_funnel: Option<Vec<(String, bool)>> = None;
    let mut foreground: Option<Vec<(String, JsonValue)>> = None;
    let mut unknown: Vec<(String, JsonValue)> = Vec::new();
    let ghost mut i: int = 0;
    proof {
        assert(raw.skip(0) =~= raw);
        assert(all.take(0) =~= Seq::<(Seq<char>, JVal)>::empty());
        assert(entries_view(unknown@) =~= Seq::<(Seq<char>, JVal)>::empty());
    }
    while es.len() > 0
        invariant
            0 <= i <= all.len(),
            es@.len() == all.len() - i,
            es@ == raw.skip(i),
            sc_fold(all.take(i)) == Some(
                ServeConfigV {
                    tcp: match tcp {
                        Some(t) => Some(tcp_view(t@)),
                        None => None,
                    },
                    web: match web {
                        Some(w) => Some(web_view(w@)),
                        None => None,
                    },
                    allow_funnel: match allow_funnel {
                        Some(f) => Some(funnel_view(f@)),
                        None => None,
                    },
                    foreground: match foreground {
                        Some(g) => Some(entries_view(g@)),
                        None => None,
                    },
                    unknown: entries_view(unknown@),
                },
            ),
        decreases es@.len(),
    {
        let (k, val) = es.remove(0);
        proof {
            assert(raw.skip(i)[0] == raw[i]);
            assert(all[i] == (k@, val@));
            assert(all.take(i + 1).drop_last() =~= all.take(i));
            assert(all.take(i + 1).last() == all[i]);
            assert(es@ =~= raw.skip(i + 1));
        }
        if str_eq(k.as_str(), "Tcp") {
            if tcp.is_some() {
                proof {
                    lemma_sc_fold_extend_none(all, i + 1);
                }
                return None;
            }
            match val {
                JsonValue::Null => {},
                JsonValue::Obj(tes) => match parse_tcp(tes) {
                    Some(t) => {
                        tcp = Some(t);
                    },
                    None => {
                        proof {
                            lemma_sc_fold_extend_none(all, i + 1);
                        }
                        return None;
                    },
                },
                _ => {
                    proof {
                        lemma_sc_fold_extend_none(all, i + 1);
                    }
                    return None;
                },
            }
        } else if str_eq(k.as_str(), "Web") {
            if web.is_some() {
                proof {
                    lemma_sc_fold_extend_none(all, i + 1);
                }
                return None;
            }
            match val {
                JsonValue::Null => {},
                JsonValue::Obj(wes) => match parse_web(wes) {
                    Some(w) => {
                        web = Some(w);
                    },
                    None => {
                        proof {
                            lemma_sc_fold_extend_none(all, i + 1);
                        }
                        return None;
                    },
                },
                _ => {
                    proof {
                        lemma_sc_fold_extend_none(all, i + 1);
                    }
                    return None;
                },
            }
        } else if str_eq(k.as_str(), "AllowFunnel") {
            if allow_funnel.is_some() {
                proof {
                    lemma_sc_fold_extend_none(all, i + 1);
                }
                return None;
            }
            match val {
                JsonValue::Null => {},
                JsonValue::Obj(fes) => match parse_funnel(fes) {
                    Some(f) => {
                        allow_funnel = Some(f);
                    },
                    None => {
                        proof {
                            lemma_sc_fold_extend_none(all, i + 1);
                        }
                        return None;
                    },
                },
                _ => {
                    proof {
                        lemma_sc_fold_extend_none(all, i + 1);
                    }
                    return None;
                },
            }
        } else if str_eq(k.as_str(), "Foreground") {
            if foreground.is_some() {
                proof {
                    lemma_sc_fold_extend_none(all, i + 1);
                }
                return None;
            }
            match val {
                JsonValue::Null => {},
                JsonValue::Obj(ges) => {
                    foreground = Some(ges);
                },
                _ => {
                    proof {
                        lemma_sc_fold_extend_none(all, i + 1);
                    }
                    return None;
                },
            }
        } else {
            let ghost u0 = unknown@;
            unknown.push((k, val));
            proof {
                assert(entries_view(unknown@) =~= entries_view(u0).push((k@, val@)));
            }
        }
        proof {
            let acc0 = sc_fold(all.take(i)).unwrap();
            assert(sc_fold(all.take(i + 1)) == sc_add(acc0, all[i]));
            i = i + 1;
        }
    }
    proof {
        assert(all.take(i) =~= all);
    }
    Some(ServeConfig { tcp, web, allow_funnel, foreground, unknown_fields: unknown })
}

// ------------------------------------------------------------------
// serialization
// ------------------------------------------------------------------

/// A handler whose retained fields hold no key this tool interprets.
///
/// Parsing always produces such handlers; the patch engine preserves this.
pub open spec fn hh_wf(h: HttpHandlerV) -> bool {
    forall|i: int| 0 <= i < h.unknown.len() ==> !hh_known_key(#[trigger] h.unknown[i].0)
}

/// Every handler of the table is well-formed.
pub open spec fn handlers_wf(hs: Seq<(Seq<char>, HttpHandlerV)>) -> bool {
    forall|i: int| 0 <= i < hs.len() ==> hh_wf(#[trigger] hs[i].1)
}

/// A per-host configuration whose retained fields hold no interpreted key.
pub open spec fn wsc_wf(w: WebServerConfigV) -> bool {
    &&& match w.handlers {
        Some(hs) => handlers_wf(hs),
        None => true,
    }
    &&& forall|i: int| 0 <= i < w.unknown.len() ==> !wsc_known_key(#[trigger] w.unknown[i].0)
}

/// Every per-host configuration of the table is well-formed.
pub open spec fn web_wf(ws: Seq<(Seq<char>, WebServerConfigV)>) -> bool {
    forall|i: int| 0 <= i < ws.len() ==> wsc_wf(#[trigger] ws[i].1)
}

/// A configuration whose retained fields hold no interpreted key.
pub open spec fn sc_wf(c: ServeConfigV) -> bool {
    &&& match c.web {
        Some(ws) => web_wf(ws),
        None => true,
    }
    &&& forall|i: int| 0 <= i < c.unknown.len() ==> !sc_known_key(#[trigger] c.unknown[i].0)
}

proof fn lemma_hh_fold_append_unknown(
    pre: Seq<(Seq<char>, JVal)>,
    unk: Seq<(Seq<char>, JVal)>,
    acc: HttpHandlerV,
)
    requires
        hh_fold(pre) == Some(acc),
        forall|i: int| 0 <= i < unk.len() ==> !hh_known_key(#[trigger] unk[i].0),
    ensures
        hh_fold(pre + unk) == Some(
            HttpHandlerV {
                proxy: acc.proxy,
                path: acc.path,
                text: acc.text,
                unknown: acc.unknown + unk,
            },
        ),
    decreases unk.len(),
{
    if unk.len() == 0 {
        assert(pre + unk =~= pre);
        assert(acc.unknown + unk =~= acc.unknown);
    } else {
        lemma_hh_fold_append_unknown(pre, unk.drop_last(), acc);
        assert((pre + unk).drop_last() =~= pre + unk.drop_last());
        assert((pre + unk).last() == unk.last());
        assert((acc.unknown + unk.drop_last()).push(unk.last()) =~= acc.unknown + unk);
    }
}

proof fn lemma_wsc_fold_append_unknown(
    pre: Seq<(Seq<char>, JVal)>,
    unk: Seq<(Seq<char>, JVal)>,
    acc: WebServerConfigV,
)
    requires
        wsc_fold(pre) == Some(acc),
        forall|i: int| 0 <= i < unk.len() ==> !wsc_known_key(#[trigger] unk[i].0),
    ensures
        wsc_fold(pre + unk) == Some(
            WebServerConfigV { handlers: acc.handlers, unknown: acc.unknown + unk },
        ),
    decreases unk.len(),
{
    if unk.len() == 0 {
        assert(pre + unk =~= pre);
        assert(acc.unknown + unk =~= acc.unknown);
    } else {
        lemma_wsc_fold_append_unknown(pre, unk.drop_last(), acc);
        assert((pre + unk).drop_last() =~= pre + unk.drop_last());
        assert((pre + unk).last() == unk.last());
        assert((acc.unknown + unk.drop_last()).push(unk.last()) =~= acc.unknown + unk);
    }
}

proof fn lemma_sc_fold_append_unknown(
    pre: Seq<(Seq<char>, JVal)>,
    unk: Seq<(Seq<char>, JVal)>,
    acc: ServeConfigV,
)
    requires
        sc_fold(pre) == Some(acc),
        forall|i: int| 0 <= i < unk.len() ==> !sc_known_key(#[trigger] unk[i].0),
    ensures
        sc_fold(pre + unk) == Some(
            ServeConfigV {
                tcp: acc.tcp,
                web: acc.web,
                allow_funnel: acc.allow_funnel,
                foreground: acc.foreground,
                unknown: acc.unknown + unk,
            },
        ),
    decreases unk.len(),
{
    if unk.len() == 0 {
        assert(pre + unk =~= pre);
        assert(acc.unknown + unk =~= acc.unknown);
    } else {
        lemma_sc_fold_append_unknown(pre, unk.drop_last(), acc);
        assert((pre + unk).drop_last() =~= pre + unk.drop_last());
        assert((pre + unk).last() == unk.last());
        assert((acc.unknown + unk.drop_last()).push(unk.last()) =~= acc.unknown + unk);
    }
}

proof fn lemma_hh_keys_distinct()
    ensures
        "Proxy"@ != "Path"@,
        "Proxy"@ != "Text"@,
        "Path"@ != "Text"@,
{
    reveal_strlit("Proxy");
    reveal_strlit("Path");
    reveal_strlit("Text");
    assert("Proxy"@.len() == 5);
    assert("Path"@.len() == 4);
    assert("Path"@[0] == 'P');
    assert("Text"@[0] == 'T');
}

proof fn lemma_sc_keys_distinct()
    ensures
        "Tcp"@ != "Web"@,
        "Tcp"@ != "AllowFunnel"@,
        "Tcp"@ != "Foreground"@,
        "Web"@ != "AllowFunnel"@,
        "Web"@ != "Foreground"@,
        "AllowFunnel"@ != "Foreground"@,
{
    reveal_strlit("Tcp");
    reveal_strlit("Web");
    reveal_strlit("AllowFunnel");
    reveal_strlit("Foreground");
    assert("Tcp"@.len() == 3);
    assert("Web"@.len() == 3);
    assert("AllowFunnel"@.len() == 11);
    assert("Foreground"@.len() == 10);
    assert("Tcp"@[0] == 'T');
    assert("Web"@[0] == 'W');
}

/// Writes a handler back to JSON. The result reads back as the same handler.
pub fn handler_to_json(h: HttpHandler) -> (r: JsonValue)
    requires
        hh_wf(h@),
    ensures
        hh_from_json(r@) == Some(h@),
{
    let ghost hv = h@;
    proof {
        lemma_hh_keys_distinct();
    }
    let HttpHandler { proxy, path, text, unknown_fields } = h;
    let mut es: Vec<(String, JsonValue)> = Vec::new();
    proof {
        assert(entries_view(es@) =~= Seq::<(Seq<char>, JVal)>::empty());
        assert(hh_fold(entries_view(es@)) == Some(hh_empty()));
    }
    match proxy {
        Some(p) => {
            proof {
                assert(hv.proxy == Some(p@));
            }
            let ghost e0 = es@;
            let ghost jv = JsonValue::Str(p);
            es.push(("Proxy".to_owned(), JsonValue::Str(p)));
            proof {
                assert(entries_view(es@) =~= entries_view(e0).push(("Proxy"@, jv@)));
                assert(entries_view(es@).drop_last() =~= entries_view(e0));
                assert(hh_fold(entries_view(es@)) == hh_add(
                    hh_fold(entries_view(e0)).unwrap(),
                    ("Proxy"@, jv@),
                ));
            }
        },
        None => {
            proof {
                assert(hv.proxy is None);
            }
        },
    }
    proof {
        assert(hh_fold(entries_view(es@)) == Some(
            HttpHandlerV { proxy: hv.proxy, path: None, text: None, unknown: Seq::empty() },
        ));
    }
    match path {
        Some(p) => {
            proof {
                assert(hv.path == Some(p@));
            }
            let ghost e0 = es@;
            let ghost jv = JsonValue::Str(p);
            es.push(("Path".to_owned(), JsonValue::Str(p)));
            proof {
                assert(entries_view(es@) =~= entries_view(e0).push(("Path"@, jv@)));
                assert(entries_view(es@).drop_last() =~= entries_view(e0));
                assert(hh_fold(entries_view(es@)) == hh_add(
                    hh_fold(entries_view(e0)).unwrap(),
                    ("Path"@, jv@),
                ));
            }
        },
        None => {
            proof {
                assert(hv.path is None);
            }
        },
    }
    proof {
        assert(hh_fold(entries_view(es@)) == Some(
            HttpHandlerV { proxy: hv.proxy, path: hv.path, text: None, unknown: Seq::empty() },
        ));
    }
    match text {
        Some(p) => {
            proof {
                assert(hv.text == Some(p@));
            }
            let ghost e0 = es@;
            let ghost jv = JsonValue::Str(p);
            es.push(("Text".to_owned(), JsonValue::Str(p)));
            proof {
                assert(entries_view(es@) =~= entries_view(e0).push(("Text"@, jv@)));
                assert(entries_view(es@).drop_last() =~= entries_view(e0));
                assert(hh_fold(entries_view(es@)) == hh_add(
                    hh_fold(entries_view(e0)).unwrap(),
                    ("Text"@, jv@),
                ));
            }
        },
        None => {
            proof {
                assert(hv.text is None);
            }
        },
    }
    proof {
        assert(hh_fold(entries_view(es@)) == Some(
            HttpHandlerV { proxy: hv.proxy, path: hv.path, text: hv.text, unknown: Seq::empty() },
        ));
    }
    let mut unknown = unknown_fields;
    let ghost pre = entries_view(es@);
    es.append(&mut unknown);
    proof {
        assert(entries_view(es@) =~= pre + hv.unknown);
        lemma_hh_fold_append_unknown(
            pre,
            hv.unknown,
            HttpHandlerV { proxy: hv.proxy, path: hv.path, text: hv.text, unknown: Seq::empty() },
        );
        assert(Seq::<(Seq<char>, JVal)>::empty() + hv.unknown =~= hv.unknown);
        assert(hh_fold(entries_view(es@)) == Some(hv));
    }
    JsonValue::Obj(es)
}

/// Writes a handler table back to JSON object entries.
pub fn handlers_to_json(hs: Vec<(String, HttpHandler)>) -> (r: Vec<(String, JsonValue)>)
    requires
        handlers_wf(handlers_view(hs@)),
    ensures
        handlers_fold(entries_view(r@)) == Some(handlers_view(hs@)),
{
    let ghost raw = hs@;
    let ghost all = handlers_view(raw);
    let mut hs = hs;
    let mut out: Vec<(String, JsonValue)> = Vec::new();
    let ghost mut i: int = 0;
    proof {
        assert(raw.skip(0) =~= raw);
        assert(all.take(0) =~= Seq::<(Seq<char>, HttpHandlerV)>::empty());
        assert(entries_view(out@) =~= Seq::<(Seq<char>, JVal)>::empty());
    }
    while hs.len() > 0
        invariant
            0 <= i <= all.len(),
            hs@.len() == all.len() - i,
            hs@ == raw.skip(i),
            handlers_fold(entries_view(out@)) == Some(all.take(i)),
        decreases hs@.len(),
    {
        let (k, h) = hs.remove(0);
        proof {
            assert(raw.skip(i)[0] == raw[i]);
            assert(all[i] == (k@, h@));
            assert(all.take(i + 1).drop_last() =~= all.take(i));
            assert(all.take(i + 1).last() == all[i]);
            assert(hs@ =~= raw.skip(i + 1));
        }
        let ghost hv = h@;
        proof {
            assert(hh_wf(all[i].1));
        }
        let jv = handler_to_json(h);
        let ghost jvg = jv;
        let ghost o0 = entries_view(out@);
        out.push((k, jv));
        proof {
            assert(entries_view(out@) =~= o0.push((k@, jvg@)));
            assert(entries_view(out@).drop_last() =~= o0);
            assert(handlers_fold(entries_view(out@)) == Some(all.take(i).push((k@, hv))));
            assert(all.take(i).push((k@, hv)) =~= all.take(i + 1));
            i = i + 1;
        }
    }
    proof {
        assert(all.take(i) =~= all);
    }
    out
}

/// Writes a per-host configuration back to JSON.
pub fn web_server_config_to_json(w: WebServerConfig) -> (r: JsonValue)
    requires
        wsc_wf(w@),
    ensures
        wsc_from_json(r@) == Some(w@),
{
    let ghost wv = w@;
    let WebServerConfig { handlers, unknown_fields } = w;
    let mut es: Vec<(String, JsonValue)> = Vec::new();
    proof {
        assert(entries_view(es@) =~= Seq::<(Seq<char>, JVal)>::empty());
        assert(wsc_fold(entries_view(es@)) == Some(wsc_empty_acc()));
    }
    match handlers {
        Some(hs) => {
            proof {
                assert(wv.handlers == Some(handlers_view(hs@)));
            }
            let hes = handlers_to_json(hs);
            let ghost jv = JsonValue::Obj(hes);
            let ghost e0 = es@;
            es.push(("Handlers".to_owned(), JsonValue::Obj(hes)));
            proof {
                assert(entries_view(es@) =~= entries_view(e0).push(("Handlers"@, jv@)));
                assert(entries_view(es@).drop_last() =~= entries_view(e0));
                assert(wsc_fold(entries_view(es@)) == wsc_add(
                    wsc_fold(entries_view(e0)).unwrap(),
                    ("Handlers"@, jv@),
                ));
            }
        },
        None => {},
    }
    proof {
        assert(wsc_fold(entries_view(es@)) == Some(
            WebServerConfigV { handlers: wv.handlers, unknown: Seq::empty() },
        ));
    }
    let mut unknown = unknown_fields;
    let ghost pre = entries_view(es@);
    es.append(&mut unknown);
    proof {
        assert(entries_view(es@) =~= pre + wv.unknown);
        lemma_wsc_fold_append_unknown(
            pre,
            wv.unknown,
            WebServerConfigV { handlers: wv.handlers, unknown: Seq::empty() },
        );
        assert(Seq::<(Seq<char>, JVal)>::empty() + wv.unknown =~= wv.unknown);
        assert(wsc_fold(entries_view(es@)) == Some(wv));
    }
    JsonValue::Obj(es)
}

/// Writes a host table back to JSON object entries.
pub fn web_to_json(ws: Vec<(String, WebServerConfig)>) -> (r: Vec<(String, JsonValue)>)
    requires
        web_wf(web_view(ws@)),
    ensures
        web_fold(entries_view(r@)) == Some(web_view(ws@)),
{
    let ghost raw = ws@;
    let ghost all = web_view(raw);
    let mut ws = ws;
    let mut out: Vec<(String, JsonValue)> = Vec::new();
    let ghost mut i: int = 0;
    proof {
        assert(raw.skip(0) =~= raw);
        assert(all.take(0) =~= Seq::<(Seq<char>, WebServerConfigV)>::empty());
        assert(entries_view(out@) =~= Seq::<(Seq<char>, JVal)>::empty());
    }
    while ws.len() > 0
        invariant
            0 <= i <= all.len(),
            ws@.len() == all.len() - i,
            ws@ == raw.skip(i),
            web_fold(entries_view(out@)) == Some(all.take(i)),
        decreases ws@.len(),
    {
        let (k, w) = ws.remove(0);
        proof {
            assert(raw.skip(i)[0] == raw[i]);
            assert(all[i] == (k@, w@));
            assert(all.take(i + 1).drop_last() =~= all.take(i));
            assert(all.take(i + 1).last() == all[i]);
            assert(ws@ =~= raw.skip(i + 1));
        }
        let ghost wv = w@;
        proof {
            assert(wsc_wf(all[i].1));
        }
        let jv = web_server_config_to_json(w);
        let ghost jvg = jv;
        let ghost o0 = entries_view(out@);
        out.push((k, jv));
        proof {
            assert(entries_view(out@) =~= o0.push((k@, jvg@)));
            assert(entries_view(out@).drop_last() =~= o0);
            assert(web_fold(entries_view(out@)) == Some(all.take(i).push((k@, wv))));
            assert(all.take(i).push((k@, wv)) =~= all.take(i + 1));
            i = i + 1;
        }
    }
    proof {
        assert(all.take(i) =~= all);
    }
    out
}

/// Writes a funnel table back to JSON object entries.
pub fn funnel_to_json(fs: Vec<(String, bool)>) -> (r: Vec<(String, JsonValue)>)
    ensures
        funnel_fold(entries_view(r@)) == Some(funnel_view(fs@)),
{
    let ghost raw = fs@;
    let ghost all = funnel_view(raw);
    let mut fs = fs;
    let mut out: Vec<(String, JsonValue)> = Vec::new();
    let ghost mut i: int = 0;
    proof {
        assert(raw.skip(0) =~= raw);
        assert(all.take(0) =~= Seq::<(Seq<char>, bool)>::empty());
        assert(entries_view(out@) =~= Seq::<(Seq<char>, JVal)>::empty());
    }
    while fs.len() > 0
        invariant
            0 <= i <= all.len(),
            fs@.len() == all.len() - i,
            fs@ == raw.skip(i),
            funnel_fold(entries_view(out@)) == Some(all.take(i)),
        decreases fs@.len(),
    {
        let (k, b) = fs.remove(0);
        proof {
            assert(raw.skip(i)[0] == raw[i]);
            assert(all[i] == (k@, b));
            assert(all.take(i + 1).drop_last() =~= all.take(i));
            assert(all.take(i + 1).last() == all[i]);
            assert(fs@ =~= raw.skip(i + 1));
        }
        let ghost o0 = entries_view(out@);
        out.push((k, JsonValue::Bool(b)));
        proof {
            assert(entries_view(out@) =~= o0.push((k@, JVal::Bool(b))));
            assert(entries_view(out@).drop_last() =~= o0);
            assert(funnel_fold(entries_view(out@)) == Some(all.take(i).push((k@, b))));
            assert(all.take(i).push((k@, b)) =~= all.take(i + 1));
            i = i + 1;
        }
    }
    proof {
        assert(all.take(i) =~= all);
    }
    out
}

proof fn lemma_dec_digits_of(n: nat)
    ensures
        dec_digits(n).len() > 0,
        all_digits(dec_digits(n)),
        dec_val(dec_digits(n)) == n,
    decreases n,
{
    if n < 10 {
        assert(dec_digits(n) == seq![digit_char(n)]);
        assert(dec_val(seq![digit_char(n)]) == dec_val(
            seq![digit_char(n)].drop_last(),
        ) * 10 + digit_val(digit_char(n)));
        assert(seq![digit_char(n)].drop_last() =~= Seq::<char>::empty());
        assert(is_digit_char(digit_char(n)));
        assert(digit_val(digit_char(n)) == n);
    } else {
        lemma_dec_digits_of(n / 10);
        let s = dec_digits(n);
        assert(s.drop_last() == dec_digits(n / 10));
        assert(s.last() == digit_char(n % 10));
        assert(is_digit_char(digit_char(n % 10)));
        assert(digit_val(digit_char(n % 10)) == n % 10);
        assert forall|i: int| 0 <= i < s.len() implies is_digit_char(#[trigger] s[i]) by {
            if i < s.len() - 1 {
                assert(s[i] == dec_digits(n / 10)[i]);
            }
        }
    }
}

/// Writes the TCP table back to JSON object entries, keys in decimal.
pub fn tcp_to_json(ts: Vec<(u16, JsonValue)>) -> (r: Vec<(String, JsonValue)>)
    ensures
        tcp_fold(entries_view(r@)) == Some(tcp_view(ts@)),
{
    let ghost raw = ts@;
    let ghost all = tcp_view(raw);
    let mut ts = ts;
    let mut out: Vec<(String, JsonValue)> = Vec::new();
    let ghost mut i: int = 0;
    proof {
        assert(raw.skip(0) =~= raw);
        assert(all.take(0) =~= Seq::<(u16, JVal)>::empty());
        assert(entries_view(out@) =~= Seq::<(Seq<char>, JVal)>::empty());
    }
    while ts.len() > 0
        invariant
            0 <= i <= raw.len(),
            ts@.len() == raw.len() - i,
            ts@ == raw.skip(i),
            tcp_fold(entries_view(out@)) == Some(all.take(i)),
        decreases ts@.len(),
    {
        let (p, v) = ts.remove(0);
        proof {
            assert(raw.skip(i)[0] == raw[i]);
            assert(all[i] == (p, v@));
            assert(all.take(i + 1).drop_last() =~= all.take(i));
            assert(all.take(i + 1).last() == all[i]);
            assert(ts@ =~= raw.skip(i + 1));
        }
        let key = crate::strutil::u16_to_string(p);
        let ghost vg = v;
        let ghost o0 = entries_view(out@);
        out.push((key, v));
        proof {
            lemma_dec_digits_of(p as nat);
            assert(entries_view(out@) =~= o0.push((dec_digits(p as nat), vg@)));
            assert(entries_view(out@).drop_last() =~= o0);
            assert(tcp_key_ok(dec_digits(p as nat)));
            assert(tcp_fold(entries_view(out@)) == Some(all.take(i).push((p, vg@))));
            assert(all.take(i).push((p, vg@)) =~= all.take(i + 1));
            i = i + 1;
        }
    }
    proof {
        assert(all.take(i) =~= all);
    }
    out
}

/// Writes a configuration back to JSON. The result reads back as the same
/// configuration, so everything the view retains — the unrecognized fields
/// at every level included — is reproduced.
pub fn serve_config_to_json(c: ServeConfig) -> (r: JsonValue)
    requires
        sc_wf(c@),
    ensures
        sc_from_json(r@) == Some(c@),
{
    let ghost cv = c@;
    proof {
        lemma_sc_keys_distinct();
    }
    let ServeConfig { tcp, web, allow_funnel, foreground, unknown_fields } = c;
    let mut es: Vec<(String, JsonValue)> = Vec::new();
    proof {
        assert(entries_view(es@) =~= Seq::<(Seq<char>, JVal)>::empty());
        assert(sc_fold(entries_view(es@)) == Some(crate::types::sc_empty()));
    }
    match tcp {
        Some(ts) => {
            proof {
                assert(cv.tcp == Some(tcp_view(ts@)));
            }
            let tes = tcp_to_json(ts);
            let ghost jv = JsonValue::Obj(tes);
            let ghost e0 = es@;
            es.push(("Tcp".to_owned(), JsonValue::Obj(tes)));
            proof {
                assert(entries_view(es@) =~= entries_view(e0).push(("Tcp"@, jv@)));
                assert(entries_view(es@).drop_last() =~= entries_view(e0));
                assert(sc_fold(entries_view(es@)) == sc_add(
                    sc_fold(entries_view(e0)).unwrap(),
                    ("Tcp"@, jv@),
                ));
            }
        },
        None => {},
    }
    proof {
        assert(sc_fold(entries_view(es@)) == Some(
            ServeConfigV {
                tcp: cv.tcp,
                web: None,
                allow_funnel: None,
                foreground: None,
                unknown: Seq::empty(),
            },
        ));
    }
    match web {
        Some(ws) => {
            proof {
                assert(cv.web == Some(web_view(ws@)));
            }
            let wes = web_to_json(ws);
            let ghost jv = JsonValue::Obj(wes);
            let ghost e0 = es@;
            es.push(("Web".to_owned(), JsonValue::Obj(wes)));
            proof {
                assert(entries_view(es@) =~= entries_view(e0).push(("Web"@, jv@)));
                assert(entries_view(es@).drop_last() =~= entries_view(e0));
                assert(sc_fold(entries_view(es@)) == sc_add(
                    sc_fold(entries_view(e0)).unwrap(),
                    ("Web"@, jv@),
                ));
            }
        },
        None => {},
    }
    proof {
        assert(sc_fold(entries_view(es@)) == Some(
            ServeConfigV {
                tcp: cv.tcp,
                web: cv.web,
                allow_funnel: None,
                foreground: None,
                unknown: Seq::empty(),
            },
        ));
    }
    match allow_funnel {
        Some(fs) => {
            proof {
                assert(cv.allow_funnel == Some(funnel_view(fs@)));
            }
            let fes = funnel_to_json(fs);
            let ghost jv = JsonValue::Obj(fes);
            let ghost e0 = es@;
            es.push(("AllowFunnel".to_owned(), JsonValue::Obj(fes)));
            proof {
                assert(entries_view(es@) =~= entries_view(e0).push(("AllowFunnel"@, jv@)));
                assert(entries_view(es@).drop_last() =~= entries_view(e0));
                assert(sc_fold(entries_view(es@)) == sc_add(
                    sc_fold(entries_view(e0)).unwrap(),
                    ("AllowFunnel"@, jv@),
                ));
            }
        },
        None => {},
    }
    proof {
        assert(sc_fold(entries_view(es@)) == Some(
            ServeConfigV {
                tcp: cv.tcp,
                web: cv.web,
                allow_funnel: cv.allow_funnel,
                foreground: None,
                unknown: Seq::empty(),
            },
        ));
    }
    match foreground {
        Some(ges) => {
            proof {
                assert(cv.foreground == Some(entries_view(ges@)));
            }
            let ghost jv = JsonValue::Obj(ges);
            let ghost e0 = es@;
            es.push(("Foreground".to_owned(), JsonValue::Obj(ges)));
            proof {
                assert(entries_view(es@) =~= entries_view(e0).push(("Foreground"@, jv@)));
                assert(entries_view(es@).drop_last() =~= entries_view(e0));
                assert(sc_fold(entries_view(es@)) == sc_add(
                    sc_fold(entries_view(e0)).unwrap(),
                    ("Foreground"@, jv@),
                ));
            }
        },
        None => {},
    }
    proof {
        assert(sc_fold(entries_view(es@)) == Some(
            ServeConfigV {
                tcp: cv.tcp,
                web: cv.web,
                allow_funnel: cv.allow_funnel,
                foreground: cv.foreground,
                unknown: Seq::empty(),
            },
        ));
    }
    let mut unknown = unknown_fields;
    let ghost pre = entries_view(es@);
    es.append(&mut unknown);
    proof {
        assert(entries_view(es@) =~= pre + cv.unknown);
        lemma_sc_fold_append_unknown(
            pre,
            cv.unknown,
            ServeConfigV {
                tcp: cv.tcp,
                web: cv.web,
                allow_funnel: cv.allow_funnel,
                foreground: cv.foreground,
                unknown: Seq::empty(),
            },
        );
        assert(Seq::<(Seq<char>, JVal)>::empty() + cv.unknown =~= cv.unknown);
        assert(sc_fold(entries_view(es@)) == Some(cv));
    }
    JsonValue::Obj(es)
}

// ------------------------------------------------------------------
// round-trip laws
// ------------------------------------------------------------------

/// The predicate keeping the entries the handler parse does not interpret.
pub open spec fn hh_unrec_pred() -> spec_fn((Seq<char>, JVal)) -> bool {
    |e: (Seq<char>, JVal)| !hh_known_key(e.0)
}

/// The predicate keeping the entries the per-host parse does not interpret.
pub open spec fn wsc_unrec_pred() -> spec_fn((Seq<char>, JVal)) -> bool {
    |e: (Seq<char>, JVal)| !wsc_known_key(e.0)
}

/// The predicate keeping the entries the top-level parse does not interpret.
pub open spec fn sc_unrec_pred() -> spec_fn((Seq<char>, JVal)) -> bool {
    |e: (Seq<char>, JVal)| !sc_known_key(e.0)
}

/// A successful parse leaves exactly the unrecognized entries, in order, in
/// the retained list, and never an interpreted key.
pub proof fn lemma_hh_fold_unknown(es: Seq<(Seq<char>, JVal)>)
    ensures
        hh_fold(es) matches Some(h) ==> h.unknown == es.filter(hh_unrec_pred()),
    decreases es.len(),
{
    reveal(Seq::filter);
    if es.len() > 0 {
        lemma_hh_fold_unknown(es.drop_last());
        let p = hh_unrec_pred();
        assert(es.filter(p) == if p(es.last()) {
            es.drop_last().filter(p).push(es.last())
        } else {
            es.drop_last().filter(p)
        });
        assert(p(es.last()) == !hh_known_key(es.last().0));
    }
}

/// See `lemma_hh_fold_unknown`; the per-host level.
pub proof fn lemma_wsc_fold_unknown(es: Seq<(Seq<char>, JVal)>)
    ensures
        wsc_fold(es) matches Some(w) ==> w.unknown == es.filter(wsc_unrec_pred()),
    decreases es.len(),
{
    reveal(Seq::filter);
    if es.len() > 0 {
        lemma_wsc_fold_unknown(es.drop_last());
        let p = wsc_unrec_pred();
        assert(es.filter(p) == if p(es.last()) {
            es.drop_last().filter(p).push(es.last())
        } else {
            es.drop_last().filter(p)
        });
        assert(p(es.last()) == !wsc_known_key(es.last().0));
    }
}

/// See `lemma_hh_fold_unknown`; the top level.
pub proof fn lemma_sc_fold_unknown(es: Seq<(Seq<char>, JVal)>)
    ensures
        sc_fold(es) matches Some(c) ==> c.unknown == es.filter(sc_unrec_pred()),
    decreases es.len(),
{
    reveal(Seq::filter);
    if es.len() > 0 {
        lemma_sc_fold_unknown(es.drop_last());
        let p = sc_unrec_pred();
        assert(es.filter(p) == if p(es.last()) {
            es.drop_last().filter(p).push(es.last())
        } else {
            es.drop_last().filter(p)
        });
        assert(p(es.last()) == !sc_known_key(es.last().0));
    }
}

/// The unrecognized top-level entries of a JSON document, in order.
pub open spec fn unrecognized_fields(j: JVal) -> Seq<(Seq<char>, JVal)> {
    match j {
        JVal::Obj(es) => es.filter(sc_unrec_pred()),
        _ => Seq::empty(),
    }
}

/// Round-trip: parsing a document and serializing the parsed configuration
/// with zero patches applied reproduces every unrecognized field and value,
/// in order. Two documents that parse to one configuration agree on all of
/// them, and they are exactly the configuration's retained entries — this
/// holds at the nested levels too, whose retained entries are part of the
/// parsed view itself.
pub proof fn lemma_roundtrip_preserves_unknown_fields(j: JVal, j2: JVal, c: ServeConfigV)
    requires
        sc_from_json(j) == Some(c),
        sc_from_json(j2) == Some(c),
    ensures
        unrecognized_fields(j2) == unrecognized_fields(j),
        unrecognized_fields(j) == c.unknown,
{
    match j {
        JVal::Obj(es) => {
            lemma_sc_fold_unknown(es);
        },
        _ => {},
    }
    match j2 {
        JVal::Obj(es) => {
            lemma_sc_fold_unknown(es);
        },
        _ => {},
    }
}

/// Parsing always yields a well-formed handler.
pub proof fn lemma_hh_fold_wf(es: Seq<(Seq<char>, JVal)>)
    ensures
        hh_fold(es) matches Some(h) ==> hh_wf(h),
    decreases es.len(),
{
    if es.len() > 0 {
        lemma_hh_fold_wf(es.drop_last());
    }
}

proof fn lemma_handlers_fold_wf(es: Seq<(Seq<char>, JVal)>)
    ensures
        handlers_fold(es) matches Some(hs) ==> handlers_wf(hs),
    decreases es.len(),
{
    if es.len() > 0 {
        lemma_handlers_fold_wf(es.drop_last());
        match handlers_fold(es) {
            Some(hs) => {
                match es.last().1 {
                    JVal::Obj(hes) => {
                        lemma_hh_fold_wf(hes);
                    },
                    _ => {},
                }
            },
            None => {},
        }
    }
}

/// Parsing always yields a well-formed per-host configuration.
pub proof fn lemma_wsc_fold_wf(es: Seq<(Seq<char>, JVal)>)
    ensures
        wsc_fold(es) matches Some(w) ==> wsc_wf(w),
    decreases es.len(),
{
    if es.len() > 0 {
        lemma_wsc_fold_wf(es.drop_last());
        match wsc_fold(es) {
            Some(w) => {
                match es.last().1 {
                    JVal::Obj(hes) => {
                        lemma_handlers_fold_wf(hes);
                    },
                    _ => {},
                }
            },
            None => {},
        }
    }
}

proof fn lemma_web_fold_wf(es: Seq<(Seq<char>, JVal)>)
    ensures
        web_fold(es) matches Some(ws) ==> web_wf(ws),
    decreases es.len(),
{
    if es.len() > 0 {
        lemma_web_fold_wf(es.drop_last());
        match web_fold(es) {
            Some(ws) => {
                match es.last().1 {
                    JVal::Obj(wes) => {
                        lemma_wsc_fold_wf(wes);
                    },
                    _ => {},
                }
            },
            None => {},
        }
    }
}

/// Parsing always yields a well-formed configuration, so what was parsed can
/// be serialized again.
pub proof fn lemma_sc_fold_wf(es: Seq<(Seq<char>, JVal)>)
    ensures
        sc_fold(es) matches Some(c) ==> sc_wf(c),
    decreases es.len(),
{
    if es.len() > 0 {
        lemma_sc_fold_wf(es.drop_last());
        match sc_fold(es) {
            Some(c) => {
                match es.last().1 {
                    JVal::Obj(wes) => {
                        lemma_web_fold_wf(wes);
                    },
                    _ => {},
                }
            },
            None => {},
        }
    }
}

/// `sc_from_json` of any value yields a well-formed configuration.
pub proof fn lemma_sc_from_json_wf(v: JVal)
    ensures
        sc_from_json(v) matches Some(c) ==> sc_wf(c),
{
    match v {
        JVal::Obj(es) => {
            lemma_sc_fold_wf(es);
        },
        _ => {},
    }
}


} // verus!
