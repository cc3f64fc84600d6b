//! The serving-configuration document model.
//!
//! The document is open and extensible: the tool interprets `Web`,
//! `AllowFunnel` and `Foreground` structurally (and checks `Tcp`'s keys), and
//! every other field at every level is retained verbatim in an
//! `unknown_fields` list so a read-modify-write cycle reproduces it.
//! Contracts speak of each type's view, whose object keys are character
//! sequences.
use crate::json::assoc_get;
use crate::json::entries_view;
use crate::json::jval;
use crate::json::vget;
use crate::json::JVal;
use crate::json::JsonValue;
use crate::strutil::ends_with_char;
use crate::strutil::starts_with;
use crate::strutil::str_ends_with_char;
use crate::strutil::str_starts_with;
use vstd::prelude::*;

verus! {

/// View of an `HttpHandler`.
#[verifier::ext_equal]
pub struct HttpHandlerV {
    pub proxy: Option<Seq<char>>,
    pub path: Option<Seq<char>>,
    pub text: Option<Seq<char>>,
    pub unknown: Seq<(Seq<char>, JVal)>,
}

/// View of a `WebServerConfig`.
#[verifier::ext_equal]
pub struct WebServerConfigV {
    pub handlers: Option<Seq<(Seq<char>, HttpHandlerV)>>,
    pub unknown: Seq<(Seq<char>, JVal)>,
}

/// View of a `ServeConfig`.
#[verifier::ext_equal]
pub struct ServeConfigV {
    pub tcp: Option<Seq<(u16, JVal)>>,
    pub web: Option<Seq<(Seq<char>, WebServerConfigV)>>,
    pub allow_funnel: Option<Seq<(Seq<char>, bool)>>,
    pub foreground: Option<Seq<(Seq<char>, JVal)>>,
    pub unknown: Seq<(Seq<char>, JVal)>,
}

/// View of the opaque TCP table.
pub open spec fn tcp_view(es: Seq<(u16, JsonValue)>) -> Seq<(u16, JVal)> {
    es.map_values(|e: (u16, JsonValue)| (e.0, jval(e.1)))
}

/// View of a handler table.
pub open spec fn handlers_view(es: Seq<(String, HttpHandler)>) -> Seq<(Seq<char>, HttpHandlerV)> {
    es.map_values(|e: (String, HttpHandler)| (e.0@, e.1@))
}

/// View of a per-host table.
pub open spec fn web_view(es: Seq<(String, WebServerConfig)>) -> Seq<(Seq<char>, WebServerConfigV)> {
    es.map_values(|e: (String, WebServerConfig)| (e.0@, e.1@))
}

/// View of a funnel-permission table.
pub open spec fn funnel_view(es: Seq<(String, bool)>) -> Seq<(Seq<char>, bool)> {
    es.map_values(|e: (String, bool)| (e.0@, e.1))
}

/// A handler for one URL path: a tagged variant (proxy, local path, or static
/// text), of which this tool only ever constructs proxies, plus retained
/// unrecognized fields.
#[derive(Debug, PartialEq)]
pub struct HttpHandler {
    pub proxy: Option<String>,
    pub path: Option<String>,
    pub text: Option<String>,
    pub unknown_fields: Vec<(String, JsonValue)>,
}

impl View for HttpHandler {
    type V = HttpHandlerV;

    open spec fn view(&self) -> HttpHandlerV {
        HttpHandlerV {
            proxy: match self.proxy {
                Some(s) => Some(s@),
                None => None,
            },
            path: match self.path {
                Some(s) => Some(s@),
                None => None,
            },
            text: match self.text {
                Some(s) => Some(s@),
                None => None,
            },
            unknown: entries_view(self.unknown_fields@),
        }
    }
}

impl HttpHandler {
    /// Creates a proxy handler forwarding to `target`.
    pub fn new_proxy(target: String) -> (r: Self)
        ensures
            r@ == (HttpHandlerV {
                proxy: Some(target@),
                path: None,
                text: None,
                unknown: Seq::<(Seq<char>, JVal)>::empty(),
            }),
    {
        let r = Self { proxy: Some(target), path: None, text: None, unknown_fields: Vec::new() };
        proof {
            assert(r@.unknown =~= Seq::<(Seq<char>, JVal)>::empty());
        }
        r
    }

    /// The target URL when this is a proxy handler.
    pub fn get_proxy_target(&self) -> (r: Option<&str>)
        ensures
            match r {
                Some(t) => self@.proxy == Some(t@),
                None => self@.proxy is None,
            },
    {
        match &self.proxy {
            Some(s) => Some(s.as_str()),
            None => None,
        }
    }
}

/// Configuration for one `host:port`: its handler table plus retained
/// unrecognized fields.
#[derive(Debug, PartialEq)]
pub struct WebServerConfig {
    pub handlers: Option<Vec<(String, HttpHandler)>>,
    pub unknown_fields: Vec<(String, JsonValue)>,
}

impl View for WebServerConfig {
    type V = WebServerConfigV;

    open spec fn view(&self) -> WebServerConfigV {
        WebServerConfigV {
            handlers: match self.handlers {
                Some(h) => Some(handlers_view(h@)),
                None => None,
            },
            unknown: entries_view(self.unknown_fields@),
        }
    }
}

/// The empty per-host configuration.
pub open spec fn wsc_empty() -> WebServerConfigV {
    WebServerConfigV { handlers: None, unknown: Seq::empty() }
}

impl WebServerConfig {
    /// Creates an empty per-host configuration.
    pub fn new() -> (r: Self)
        ensures
            r@ == wsc_empty(),
    {
        let r = Self { handlers: None, unknown_fields: Vec::new() };
        proof {
            assert(r@.unknown =~= Seq::<(Seq<char>, JVal)>::empty());
        }
        r
    }
}

impl Default for WebServerConfig {
    /// The empty per-host configuration.
    fn default() -> (r: Self)
        ensures
            r@ == wsc_empty(),
    {
        Self::new()
    }
}

/// The top-level serving configuration: `tcp` (opaque, untouched), `web`,
/// `allowFunnel`, `foreground` (one ephemeral nested document per session),
/// plus retained unrecognized fields.
#[derive(Debug, PartialEq)]
pub struct ServeConfig {
    pub tcp: Option<Vec<(u16, JsonValue)>>,
    pub web: Option<Vec<(String, WebServerConfig)>>,
    pub allow_funnel: Option<Vec<(String, bool)>>,
    pub foreground: Option<Vec<(String, JsonValue)>>,
    pub unknown_fields: Vec<(String, JsonValue)>,
}

impl View for ServeConfig {
    type V = ServeConfigV;

    open spec fn view(&self) -> ServeConfigV {
        ServeConfigV {
            tcp: match self.tcp {
                Some(t) => Some(tcp_view(t@)),
                None => None,
            },
            web: match self.web {
                Some(w) => Some(web_view(w@)),
                None => None,
            },
            allow_funnel: match self.allow_funnel {
                Some(f) => Some(funnel_view(f@)),
                None => None,
            },
            foreground: match self.foreground {
                Some(f) => Some(entries_view(f@)),
                None => None,
            },
            unknown: entries_view(self.unknown_fields@),
        }
    }
}

/// The empty serving configuration.
pub open spec fn sc_empty() -> ServeConfigV {
    ServeConfigV {
        tcp: None,
        web: None,
        allow_funnel: None,
        foreground: None,
        unknown: Seq::empty(),
    }
}

/// The handler table installed for `hp`, if any.
pub open spec fn sc_handlers(c: ServeConfigV, hp: Seq<char>) -> Option<
    Seq<(Seq<char>, HttpHandlerV)>,
> {
    match c.web {
        Some(web) => match vget(web, hp) {
            Some(wc) => wc.handlers,
            None => None,
        },
        None => None,
    }
}

/// Whether funnel is allowed for `hp`; absent means not allowed.
pub open spec fn sc_funnel_enabled(c: ServeConfigV, hp: Seq<char>) -> bool {
    match c.allow_funnel {
        Some(f) => vget(f, hp) == Some(true),
        None => false,
    }
}

pub(crate) proof fn lemma_vget_entries(es: Seq<(String, JsonValue)>, k: Seq<char>)
    ensures
        vget(entries_view(es), k) == match assoc_get(es, k) {
            Some(v) => Some(jval(v)),
            None => None::<JVal>,
        },
    decreases es.len(),
{
    if es.len() > 0 {
        lemma_vget_entries(es.drop_first(), k);
        assert(entries_view(es).drop_first() =~= entries_view(es.drop_first()));
    }
}

pub(crate) proof fn lemma_vget_web(es: Seq<(String, WebServerConfig)>, k: Seq<char>)
    ensures
        vget(web_view(es), k) == match assoc_get(es, k) {
            Some(w) => Some(w@),
            None => None::<WebServerConfigV>,
        },
    decreases es.len(),
{
    if es.len() > 0 {
        lemma_vget_web(es.drop_first(), k);
        assert(web_view(es).drop_first() =~= web_view(es.drop_first()));
    }
}

pub(crate) proof fn lemma_vget_handlers(es: Seq<(String, HttpHandler)>, k: Seq<char>)
    ensures
        vget(handlers_view(es), k) == match assoc_get(es, k) {
            Some(h) => Some(h@),
            None => None::<HttpHandlerV>,
        },
    decreases es.len(),
{
    if es.len() > 0 {
        lemma_vget_handlers(es.drop_first(), k);
        assert(handlers_view(es).drop_first() =~= handlers_view(es.drop_first()));
    }
}

pub(crate) proof fn lemma_vget_funnel(es: Seq<(String, bool)>, k: Seq<char>)
    ensures
        vget(funnel_view(es), k) == assoc_get(es, k),
    decreases es.len(),
{
    if es.len() > 0 {
        lemma_vget_funnel(es.drop_first(), k);
        assert(funnel_view(es).drop_first() =~= funnel_view(es.drop_first()));
    }
}

impl ServeConfig {
    /// Creates an empty serving configuration.
    pub fn new() -> (r: Self)
        ensures
            r@ == sc_empty(),
    {
        let r = Self {
            tcp: None,
            web: None,
            allow_funnel: None,
            foreground: None,
            unknown_fields: Vec::new(),
        };
        proof {
            assert(r@.unknown =~= Seq::<(Seq<char>, JVal)>::empty());
        }
        r
    }

    /// The handler table for `host_port`, if one is installed.
    pub fn get_handlers(&self, host_port: &str) -> (r: Option<&Vec<(String, HttpHandler)>>)
        ensures
            match r {
                Some(hs) => sc_handlers(self@, host_port@) == Some(handlers_view(hs@)),
                None => sc_handlers(self@, host_port@) is None,
            },
    {
        match &self.web {
            Some(web) => {
                proof {
                    lemma_vget_web(web@, host_port@);
                }
                match crate::json::assoc_find(web, host_port) {
                    Some(wc) => match &wc.handlers {
                        Some(h) => Some(h),
                        None => None,
                    },
                    None => None,
                }
            },
            None => None,
        }
    }

    /// Whether funnel is allowed for `host_port`; absent entries mean no.
    pub fn is_funnel_enabled(&self, host_port: &str) -> (r: bool)
        ensures
            r == sc_funnel_enabled(self@, host_port@),
    {
        match &self.allow_funnel {
            Some(f) => {
                proof {
                    lemma_vget_funnel(f@, host_port@);
                }
                match crate::json::assoc_find(f, host_port) {
                    Some(b) => *b,
                    None => false,
                }
            },
            None => false,
        }
    }
}

impl Default for ServeConfig {
    /// The empty serving configuration.
    fn default() -> (r: Self)
        ensures
            r@ == sc_empty(),
    {
        Self::new()
    }
}

/// Whether the prefix mount `prefix` captures requests for path `p`: only a
/// path ending in `/` is a mount, and it captures every path it starts.
pub open spec fn prefix_mount_captures(prefix: Seq<char>, p: Seq<char>) -> bool {
    ends_with_char(prefix, '/') && starts_with(p, prefix)
}

/// One (path, target) route, with its funnel flag, as compared by the
/// conflict scan.
#[derive(Debug, Clone, PartialEq, Eq)]
pub struct PathMapping {
    pub path: String,
    pub target: String,
    pub funnel_enabled: bool,
}

impl PathMapping {
    pub fn new(path: String, target: String, funnel_enabled: bool) -> (r: Self)
        ensures
            r.path@ == path@,
            r.target@ == target@,
            r.funnel_enabled == funnel_enabled,
    {
        Self { path, target, funnel_enabled }
    }

    /// Whether this mapping's path, as a prefix mount, captures `other`.
    pub fn is_prefix_of(&self, other: &str) -> (r: bool)
        ensures
            r == prefix_mount_captures(self.path@, other@),
    {
        if !str_ends_with_char(self.path.as_str(), '/') {
            return false;
        }
        str_starts_with(other, self.path.as_str())
    }

    /// Whether `other`, as a prefix mount, captures this mapping's path.
    pub fn has_prefix(&self, other: &str) -> (r: bool)
        ensures
            r == prefix_mount_captures(other@, self.path@),
    {
        if !str_ends_with_char(other, '/') {
            return false;
        }
        str_starts_with(self.path.as_str(), other)
    }
}

/// A path that does not end in `/` is never treated as a prefix of another
/// path, even when it is a character prefix of it.
pub proof fn lemma_non_mount_never_captures(prefix: Seq<char>, p: Seq<char>)
    requires
        !ends_with_char(prefix, '/'),
    ensures
        !prefix_mount_captures(prefix, p),
{
}

} // verus!
