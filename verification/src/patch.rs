//! The conflict/patch engine: route collision detection against an existing
//! handler table, and the minimal document mutations that install or remove a
//! route for an ephemeral session.
use crate::codec::parse_serve_config;
use crate::codec::sc_from_json;
use crate::codec::sc_wf;
use crate::codec::serve_config_to_json;
use crate::error::FunnelError;
use crate::error::FunnelErrorV;
use crate::json::clone_json;
use crate::json::entries_view;
use crate::json::jval;
use crate::json::vget;
use crate::json::vhas;
use crate::json::vremove;
use crate::json::vset;
use crate::json::JVal;
use crate::json::JsonValue;
use crate::strutil::str_eq;
use crate::types::handlers_view;
use crate::types::prefix_mount_captures;
use crate::types::sc_empty;
use crate::types::sc_funnel_enabled;
use crate::types::sc_handlers;
use crate::types::wsc_empty;
use crate::types::HttpHandler;
use crate::types::HttpHandlerV;
use crate::types::PathMapping;
use crate::types::ServeConfig;
use crate::types::ServeConfigV;
use crate::types::WebServerConfig;
use crate::types::WebServerConfigV;
use vstd::prelude::*;
use vstd::string::StringExecFns;

verus! {

/// View of a `Conflict`.
#[verifier::ext_equal]
pub enum ConflictV {
    ExactPathDifferentTarget { path: Seq<char>, existing_target: Seq<char>, new_target: Seq<char> },
    CapturedByExistingPrefix {
        new_path: Seq<char>,
        existing_prefix: Seq<char>,
        existing_target: Seq<char>,
    },
    NewPrefixCapturesExisting {
        new_prefix: Seq<char>,
        captured_path: Seq<char>,
        captured_target: Seq<char>,
    },
}

/// A route collision between the proposed mapping and an existing one: the
/// same path with a different target, capture by an existing prefix mount,
/// or capture of an existing path by the proposed prefix mount.
#[derive(Debug, Clone, PartialEq, Eq)]
pub enum Conflict {
    ExactPathDifferentTarget { path: String, existing_target: String, new_target: String },
    CapturedByExistingPrefix { new_path: String, existing_prefix: String, existing_target: String },
    NewPrefixCapturesExisting { new_prefix: String, captured_path: String, captured_target: String },
}

impl View for Conflict {
    type V = ConflictV;

    open spec fn view(&self) -> ConflictV {
        match self {
            Conflict::ExactPathDifferentTarget { path, existing_target, new_target } => {
                ConflictV::ExactPathDifferentTarget {
                    path: path@,
                    existing_target: existing_target@,
                    new_target: new_target@,
                }
            },
            Conflict::CapturedByExistingPrefix { new_path, existing_prefix, existing_target } => {
                ConflictV::CapturedByExistingPrefix {
                    new_path: new_path@,
                    existing_prefix: existing_prefix@,
                    existing_target: existing_target@,
                }
            },
            Conflict::NewPrefixCapturesExisting { new_prefix, captured_path, captured_target } => {
                ConflictV::NewPrefixCapturesExisting {
                    new_prefix: new_prefix@,
                    captured_path: captured_path@,
                    captured_target: captured_target@,
                }
            },
        }
    }
}

/// The text describing a conflict.
pub open spec fn conflict_description(c: ConflictV) -> Seq<char> {
    match c {
        ConflictV::ExactPathDifferentTarget { path, existing_target, new_target } => {
            "path '"@ + path + "' already maps to '"@ + existing_target
                + "', but new mapping targets '"@ + new_target + "'"@
        },
        ConflictV::CapturedByExistingPrefix { new_path, existing_prefix, existing_target } => {
            "new path '"@ + new_path + "' would be captured by existing prefix '"@
                + existing_prefix + "' (targets '"@ + existing_target + "')"@
        },
        ConflictV::NewPrefixCapturesExisting { new_prefix, captured_path, captured_target } => {
            "new prefix '"@ + new_prefix + "' would capture existing path '"@ + captured_path
                + "' (targets '"@ + captured_target + "')"@
        },
    }
}

impl Conflict {
    /// A human-readable description of the conflict.
    pub fn describe(&self) -> (r: String)
        ensures
            r@ == conflict_description(self@),
    {
        match self {
            Conflict::ExactPathDifferentTarget { path, existing_target, new_target } => {
                let mut s = "path '".to_owned();
                s.append(path.as_str());
                s.append("' already maps to '");
                s.append(existing_target.as_str());
                s.append("', but new mapping targets '");
                s.append(new_target.as_str());
                s.append("'");
                s
            },
            Conflict::CapturedByExistingPrefix { new_path, existing_prefix, existing_target } => {
                let mut s = "new path '".to_owned();
                s.append(new_path.as_str());
                s.append("' would be captured by existing prefix '");
                s.append(existing_prefix.as_str());
                s.append("' (targets '");
                s.append(existing_target.as_str());
                s.append("')");
                s
            },
            Conflict::NewPrefixCapturesExisting { new_prefix, captured_path, captured_target } => {
                let mut s = "new prefix '".to_owned();
                s.append(new_prefix.as_str());
                s.append("' would capture existing path '");
                s.append(captured_path.as_str());
                s.append("' (targets '");
                s.append(captured_target.as_str());
                s.append("')");
                s
            },
        }
    }
}

/// How an existing handler is described when it stands in a conflict.
pub open spec fn target_desc(h: HttpHandlerV) -> Seq<char> {
    if h.proxy is Some {
        h.proxy.unwrap()
    } else if h.path is Some {
        "path handler "@ + h.path.unwrap()
    } else if h.text is Some {
        "text handler"@
    } else {
        "non-proxy handler"@
    }
}

fn describe_handler_target(handler: &HttpHandler) -> (r: String)
    ensures
        r@ == target_desc(handler@),
{
    match &handler.proxy {
        Some(p) => {
            return p.clone();
        },
        None => {},
    }
    match &handler.path {
        Some(p) => {
            let mut s = "path handler ".to_owned();
            s.append(p.as_str());
            return s;
        },
        None => {},
    }
    if handler.text.is_some() {
        return "text handler".to_owned();
    }
    "non-proxy handler".to_owned()
}

/// The result of the conflict scan: an idempotent re-proposal, no conflict,
/// or the first conflict in table order.
pub enum DetectV {
    Idempotent,
    NoConflict,
    Clash(ConflictV),
}

/// The scan over existing mappings, in table order; the first decisive entry
/// wins. An exact path match with the same target is decisive: idempotent
/// when both funnel flags are set, otherwise a safe no-op.
pub open spec fn scan_handlers(
    hs: Seq<(Seq<char>, HttpHandlerV)>,
    existing_funnel: bool,
    np: Seq<char>,
    nt: Seq<char>,
    nf: bool,
) -> DetectV
    decreases hs.len(),
{
    if hs.len() == 0 {
        DetectV::NoConflict
    } else {
        let p = hs[0].0;
        let t = target_desc(hs[0].1);
        if p == np {
            if t == nt {
                if existing_funnel && nf {
                    DetectV::Idempotent
                } else {
                    DetectV::NoConflict
                }
            } else {
                DetectV::Clash(
                    ConflictV::ExactPathDifferentTarget {
                        path: np,
                        existing_target: t,
                        new_target: nt,
                    },
                )
            }
        } else if prefix_mount_captures(p, np) {
            DetectV::Clash(
                ConflictV::CapturedByExistingPrefix {
                    new_path: np,
                    existing_prefix: p,
                    existing_target: t,
                },
            )
        } else if prefix_mount_captures(np, p) {
            DetectV::Clash(
                ConflictV::NewPrefixCapturesExisting {
                    new_prefix: np,
                    captured_path: p,
                    captured_target: t,
                },
            )
        } else {
            scan_handlers(hs.drop_first(), existing_funnel, np, nt, nf)
        }
    }
}

/// What the conflict check returns for a configuration: no handlers at the
/// host means no conflict; otherwise the scan decides.
pub open spec fn detect_spec(
    c: ServeConfigV,
    hp: Seq<char>,
    np: Seq<char>,
    nt: Seq<char>,
    nf: bool,
) -> DetectV {
    match sc_handlers(c, hp) {
        None => DetectV::NoConflict,
        Some(hs) => scan_handlers(hs, sc_funnel_enabled(c, hp), np, nt, nf),
    }
}

/// Checks the proposed mapping against the configuration's table for
/// `host_port`.
///
/// Returns `Ok(Some(true))` exactly on an idempotent re-proposal (same path,
/// same target, both funnel flags set), `Ok(None)` when nothing conflicts
/// (including a same-path same-target re-proposal without both flags), and
/// `Err` with the first conflict in table order.
pub fn detect_conflicts(
    config: &ServeConfig,
    host_port: &str,
    new_path: &str,
    new_target: &str,
    funnel_enabled: bool,
) -> (r: Result<Option<bool>, Conflict>)
    ensures
        match r {
            Ok(Some(b)) => b && detect_spec(config@, host_port@, new_path@, new_target@, funnel_enabled)
                == DetectV::Idempotent,
            Ok(None) => detect_spec(config@, host_port@, new_path@, new_target@, funnel_enabled)
                == DetectV::NoConflict,
            Err(c) => detect_spec(config@, host_port@, new_path@, new_target@, funnel_enabled)
                == DetectV::Clash(c@),
        },
{
    let handlers = match config.get_handlers(host_port) {
        Some(h) => h,
        None => {
            return Ok(None);
        },
    };
    let existing_funnel_enabled = config.is_funnel_enabled(host_port);
    let ghost hsv = handlers_view(handlers@);
    let new_mapping = PathMapping::new(
        new_path.to_owned(),
        new_target.to_owned(),
        funnel_enabled,
    );
    let mut i: usize = 0;
    proof {
        assert(hsv.skip(0) =~= hsv);
    }
    while i < handlers.len()
        invariant
            i <= handlers@.len(),
            scan_handlers(hsv, existing_funnel_enabled, new_path@, new_target@, funnel_enabled)
                == scan_handlers(
                hsv.skip(i as int),
                existing_funnel_enabled,
                new_path@,
                new_target@,
                funnel_enabled,
            ),
        decreases handlers@.len() - i,
    {
        proof {
            assert(hsv.skip(i as int)[0] == hsv[i as int]);
            assert(hsv[i as int] == (handlers@[i as int].0@, handlers@[i as int].1@));
        }
        let target = describe_handler_target(&handlers[i].1);
        let existing = PathMapping::new(
            handlers[i].0.clone(),
            target,
            existing_funnel_enabled,
        );
        if str_eq(existing.path.as_str(), new_path) {
            if str_eq(existing.target.as_str(), new_target) {
                if existing_funnel_enabled && funnel_enabled {
                    return Ok(Some(true));
                }
                return Ok(None);
            }
            return Err(
                Conflict::ExactPathDifferentTarget {
                    path: new_path.to_owned(),
                    existing_target: existing.target.clone(),
                    new_target: new_target.to_owned(),
                },
            );
        }
        if existing.is_prefix_of(new_path) {
            return Err(
                Conflict::CapturedByExistingPrefix {
                    new_path: new_path.to_owned(),
                    existing_prefix: existing.path.clone(),
                    existing_target: existing.target.clone(),
                },
            );
        }
        if new_mapping.is_prefix_of(existing.path.as_str()) {
            return Err(
                Conflict::NewPrefixCapturesExisting {
                    new_prefix: new_path.to_owned(),
                    captured_path: existing.path.clone(),
                    captured_target: existing.target.clone(),
                },
            );
        }
        proof {
            assert(hsv.skip(i as int).drop_first() =~= hsv.skip(i + 1));
        }
        i += 1;
    }
    Ok(None)
}

/// The proxy handler this tool installs.
pub open spec fn proxy_handler_v(target: Seq<char>) -> HttpHandlerV {
    HttpHandlerV { proxy: Some(target), path: None, text: None, unknown: Seq::empty() }
}

/// A session's nested configuration after installing the route: the host's
/// handler table gains (or overwrites) a proxy handler at `path`, and, when
/// funnel is requested, the nested funnel table allows `hp`. Nothing else
/// moves.
pub open spec fn patched_session(
    sv: ServeConfigV,
    hp: Seq<char>,
    path: Seq<char>,
    target: Seq<char>,
    funnel: bool,
) -> ServeConfigV {
    let web0 = match sv.web {
        Some(w) => w,
        None => Seq::empty(),
    };
    let wc0 = match vget(web0, hp) {
        Some(w) => w,
        None => wsc_empty(),
    };
    let hs0 = match wc0.handlers {
        Some(h) => h,
        None => Seq::empty(),
    };
    let wc1 = WebServerConfigV {
        handlers: Some(vset(hs0, path, proxy_handler_v(target))),
        unknown: wc0.unknown,
    };
    let af1 = if funnel {
        Some(
            vset(
                match sv.allow_funnel {
                    Some(f) => f,
                    None => Seq::empty(),
                },
                hp,
                true,
            ),
        )
    } else {
        sv.allow_funnel
    };
    ServeConfigV {
        tcp: sv.tcp,
        web: Some(vset(web0, hp, wc1)),
        allow_funnel: af1,
        foreground: sv.foreground,
        unknown: sv.unknown,
    }
}

/// Patching preserves well-formedness, so the result can be serialized.
pub proof fn lemma_patched_session_wf(
    sv: ServeConfigV,
    hp: Seq<char>,
    path: Seq<char>,
    target: Seq<char>,
    funnel: bool,
)
    requires
        sc_wf(sv),
    ensures
        sc_wf(patched_session(sv, hp, path, target, funnel)),
{
    let web0 = match sv.web {
        Some(w) => w,
        None => Seq::empty(),
    };
    let wc0 = match vget(web0, hp) {
        Some(w) => w,
        None => wsc_empty(),
    };
    let hs0 = match wc0.handlers {
        Some(h) => h,
        None => Seq::empty(),
    };
    crate::json::lemma_vget_elem(web0, hp);
    if vget(web0, hp) is Some {
        let j = choose|j: int| 0 <= j < web0.len() && web0[j] == (hp, vget(web0, hp).unwrap());
        assert(crate::codec::wsc_wf(web0[j].1));
    }
    assert(crate::codec::wsc_wf(wc0));
    assert(crate::codec::handlers_wf(match wc0.handlers {
        Some(h) => h,
        None => Seq::empty(),
    }));
    let hs1 = vset(hs0, path, proxy_handler_v(target));
    crate::json::lemma_vset_elems(hs0, path, proxy_handler_v(target));
    assert(crate::codec::hh_wf(proxy_handler_v(target)));
    assert(crate::codec::handlers_wf(hs1));
    let wc1 = WebServerConfigV { handlers: Some(hs1), unknown: wc0.unknown };
    assert(crate::codec::wsc_wf(wc1));
    crate::json::lemma_vset_elems(web0, hp, wc1);
    assert(crate::codec::web_wf(vset(web0, hp, wc1)));
}

/// Installs the proxy route in a session's nested configuration.
fn patch_session(sess: &mut ServeConfig, host_port: &str, path: &str, target: &str, funnel: bool)
    ensures
        final(sess)@ == patched_session(old(sess)@, host_port@, path@, target@, funnel),
{
    let ghost sv = sess@;
    let ghost web0 = match sv.web {
        Some(w) => w,
        None => Seq::<(Seq<char>, WebServerConfigV)>::empty(),
    };
    let mut web: Vec<(String, WebServerConfig)> = match sess.web.take() {
        Some(w) => w,
        None => Vec::new(),
    };
    proof {
        assert(crate::types::web_view(web@) =~= web0);
    }
    let handler = HttpHandler::new_proxy(target.to_owned());
    let ghost hv = handler@;
    match crate::json::assoc_index_of(&web, host_port) {
        Some(i) => {
            let ghost wprev = web@;
            proof {
                assert(web0[i as int] == (wprev[i as int].0@, wprev[i as int].1@));
                assert forall|j: int| 0 <= j < i implies web0[j].0 != host_port@ by {
                    assert(web0[j] == (wprev[j].0@, wprev[j].1@));
                }
                crate::json::lemma_vget_at_index(web0, host_port@, i as int);
            }
            let (k0, mut wc) = web.remove(i);
            let ghost wc0 = wc@;
            let mut handlers: Vec<(String, HttpHandler)> = match wc.handlers.take() {
                Some(h) => h,
                None => Vec::new(),
            };
            let ghost hs0 = match wc0.handlers {
                Some(h) => h,
                None => Seq::<(Seq<char>, HttpHandlerV)>::empty(),
            };
            proof {
                assert(handlers_view(handlers@) =~= hs0);
            }
            insert_handler(&mut handlers, path, handler);
            wc.handlers = Some(handlers);
            web.insert(i, (k0, wc));
            proof {
                let wc1 = WebServerConfigV {
                    handlers: Some(vset(hs0, path@, hv)),
                    unknown: wc0.unknown,
                };
                assert(wc@ == wc1);
                crate::json::lemma_vset_at_index(web0, host_port@, wc1, i as int);
                assert(crate::types::web_view(web@) =~= web0.update(i as int, (host_port@, wc1)));
            }
        },
        None => {
            proof {
                assert forall|j: int| 0 <= j < web0.len() implies web0[j].0 != host_port@ by {
                    assert(web0[j] == (web@[j].0@, web@[j].1@));
                }
                crate::json::lemma_vget_absent(web0, host_port@);
            }
            let mut wc = WebServerConfig::new();
            let mut handlers: Vec<(String, HttpHandler)> = Vec::new();
            proof {
                assert(handlers_view(handlers@) =~= Seq::<(Seq<char>, HttpHandlerV)>::empty());
            }
            insert_handler(&mut handlers, path, handler);
            wc.handlers = Some(handlers);
            let ghost wc1v = wc@;
            web.push((host_port.to_owned(), wc));
            proof {
                let wc1 = WebServerConfigV {
                    handlers: Some(
                        vset(Seq::<(Seq<char>, HttpHandlerV)>::empty(), path@, hv),
                    ),
                    unknown: Seq::empty(),
                };
                assert(wc1v == wc1);
                crate::json::lemma_vset_absent(web0, host_port@, wc1);
                assert(crate::types::web_view(web@) =~= web0.push((host_port@, wc1)));
            }
        },
    }
    sess.web = Some(web);
    if funnel {
        let ghost af0 = match sv.allow_funnel {
            Some(f) => f,
            None => Seq::<(Seq<char>, bool)>::empty(),
        };
        let mut af: Vec<(String, bool)> = match sess.allow_funnel.take() {
            Some(f) => f,
            None => Vec::new(),
        };
        proof {
            assert(crate::types::funnel_view(af@) =~= af0);
        }
        match crate::json::assoc_index_of(&af, host_port) {
            Some(i) => {
                let (k0, _) = af.remove(i);
                af.insert(i, (k0, true));
                proof {
                    crate::json::lemma_vset_at_index(af0, host_port@, true, i as int);
                    assert(crate::types::funnel_view(af@) =~= af0.update(
                        i as int,
                        (host_port@, true),
                    ));
                }
            },
            None => {
                af.push((host_port.to_owned(), true));
                proof {
                    crate::json::lemma_vset_absent(af0, host_port@, true);
                    assert(crate::types::funnel_view(af@) =~= af0.push((host_port@, true)));
                }
            },
        }
        sess.allow_funnel = Some(af);
    }
    proof {
        assert(sess@ =~~= patched_session(sv, host_port@, path@, target@, funnel));
    }
}

/// Puts a proxy handler in the table under `path`, replacing any old one.
fn insert_handler(handlers: &mut Vec<(String, HttpHandler)>, path: &str, handler: HttpHandler)
    ensures
        handlers_view(final(handlers)@) == vset(
            handlers_view(old(handlers)@),
            path@,
            handler@,
        ),
{
    let ghost hs0 = handlers_view(old(handlers)@);
    let ghost hv = handler@;
    match crate::json::assoc_index_of(handlers, path) {
        Some(i) => {
            let (k0, _) = handlers.remove(i);
            handlers.insert(i, (k0, handler));
            proof {
                crate::json::lemma_vset_at_index(hs0, path@, hv, i as int);
                assert(handlers_view(handlers@) =~= hs0.update(i as int, (path@, hv)));
            }
        },
        None => {
            handlers.push((path.to_owned(), handler));
            proof {
                crate::json::lemma_vset_absent(hs0, path@, hv);
                assert(handlers_view(handlers@) =~= hs0.push((path@, hv)));
            }
        },
    }
}

/// The foreground table of a configuration, empty when absent.
pub open spec fn fg_entries(c: ServeConfigV) -> Seq<(Seq<char>, JVal)> {
    match c.foreground {
        Some(f) => f,
        None => Seq::empty(),
    }
}

/// The session's stored nested document, if one is there.
pub open spec fn session_value(c: ServeConfigV, sid: Seq<char>) -> Option<JVal> {
    vget(fg_entries(c), sid)
}

/// Whether the stored session document (if any) reads as a configuration.
pub open spec fn session_parses(c: ServeConfigV, sid: Seq<char>) -> bool {
    match session_value(c, sid) {
        Some(v) => sc_from_json(v) is Some,
        None => true,
    }
}

/// The session's nested configuration; a missing session means an empty one.
pub open spec fn session_view_or_empty(c: ServeConfigV, sid: Seq<char>) -> ServeConfigV {
    match session_value(c, sid) {
        Some(v) => sc_from_json(v).unwrap(),
        None => sc_empty(),
    }
}

/// Installs the route under `foreground[session_id]`, creating the session
/// entry (and the foreground table) as needed, while preserving every other
/// session, the outer document, and all unrecognized fields.
///
/// Fails exactly when the stored session document does not read as a
/// configuration; the document is then left unchanged.
pub fn apply_patch(
    config: &mut ServeConfig,
    session_id: &str,
    host_port: &str,
    path: &str,
    target: &str,
    funnel_enabled: bool,
) -> (r: Result<(), FunnelError>)
    ensures
        match r {
            Ok(()) => {
                &&& session_parses(old(config)@, session_id@)
                &&& final(config)@.tcp == old(config)@.tcp
                &&& final(config)@.web == old(config)@.web
                &&& final(config)@.allow_funnel == old(config)@.allow_funnel
                &&& final(config)@.unknown == old(config)@.unknown
                &&& final(config).foreground is Some
                &&& {
                    let fg0 = fg_entries(old(config)@);
                    let fg1 = fg_entries(final(config)@);
                    &&& fg1.len() == if vhas(fg0, session_id@) {
                        fg0.len()
                    } else {
                        (fg0.len() + 1) as nat
                    }
                    &&& match vget(fg1, session_id@) {
                        Some(v1) => sc_from_json(v1) == Some(
                            patched_session(
                                session_view_or_empty(old(config)@, session_id@),
                                host_port@,
                                path@,
                                target@,
                                funnel_enabled,
                            ),
                        ),
                        None => false,
                    }
                    &&& vremove(fg1, session_id@) == vremove(fg0, session_id@)
                }
            },
            Err(e) => {
                &&& !session_parses(old(config)@, session_id@)
                &&& e@ == FunnelErrorV::Other("Failed to parse session config"@)
                &&& *final(config) == *old(config)
            },
        },
{
    let ghost c0 = config@;
    let ghost fg0 = fg_entries(c0);
    let mut fg: Vec<(String, JsonValue)> = match config.foreground.take() {
        Some(f) => f,
        None => Vec::new(),
    };
    proof {
        assert(entries_view(fg@) =~= fg0);
    }
    match crate::json::assoc_index_of(&fg, session_id) {
        Some(i) => {
            proof {
                crate::json::lemma_vget_at_index(fg0, session_id@, i as int);
                assert(fg0[i as int] == (fg@[i as int].0@, jval(fg@[i as int].1)));
            }
            let cloned = clone_json(&fg[i].1);
            let mut sess = match parse_serve_config(cloned) {
                Some(c) => c,
                None => {
                    config.foreground = Some(fg);
                    proof {
                        assert(*config =~~= *old(config));
                    }
                    return Err(FunnelError::Other("Failed to parse session config".to_owned()));
                },
            };
            proof {
                crate::codec::lemma_sc_from_json_wf(jval(fg@[i as int].1));
                lemma_patched_session_wf(sess@, host_port@, path@, target@, funnel_enabled);
            }
            patch_session(&mut sess, host_port, path, target, funnel_enabled);
            let new_value = serve_config_to_json(sess);
            let ghost nv = jval(new_value);
            let (k0, _) = fg.remove(i);
            fg.insert(i, (k0, new_value));
            proof {
                assert(entries_view(fg@) =~= fg0.update(i as int, (session_id@, nv)));
                crate::json::lemma_vset_at_index(fg0, session_id@, nv, i as int);
                crate::json::lemma_vget_vset(fg0, session_id@, nv);
                crate::json::lemma_vremove_vset(fg0, session_id@, nv);
            }
            config.foreground = Some(fg);
            Ok(())
        },
        None => {
            proof {
                crate::json::lemma_vget_absent(fg0, session_id@);
            }
            let mut sess = ServeConfig::new();
            proof {
                lemma_patched_session_wf(sess@, host_port@, path@, target@, funnel_enabled);
            }
            patch_session(&mut sess, host_port, path, target, funnel_enabled);
            let new_value = serve_config_to_json(sess);
            let ghost nv = jval(new_value);
            fg.push((session_id.to_owned(), new_value));
            proof {
                assert(entries_view(fg@) =~= fg0.push((session_id@, nv)));
                crate::json::lemma_vset_absent(fg0, session_id@, nv);
                crate::json::lemma_vget_vset(fg0, session_id@, nv);
                crate::json::lemma_vremove_vset(fg0, session_id@, nv);
            }
            config.foreground = Some(fg);
            Ok(())
        },
    }
}

/// Whether the removal walk reaches a handler table: the session document has
/// a host table, an entry for `hp`, and handlers there.
pub open spec fn remove_reaches(sv: ServeConfigV, hp: Seq<char>) -> bool {
    &&& sv.web is Some
    &&& vget(sv.web.unwrap(), hp) is Some
    &&& vget(sv.web.unwrap(), hp).unwrap().handlers is Some
}

/// Whether a handler is installed at `path` for `hp`.
pub open spec fn remove_hits(sv: ServeConfigV, hp: Seq<char>, path: Seq<char>) -> bool {
    remove_reaches(sv, hp) && vhas(vget(sv.web.unwrap(), hp).unwrap().handlers.unwrap(), path)
}

/// The session's nested configuration after removing the route: the handler
/// goes, an emptied handler table goes, a host entry left with nothing goes,
/// and an emptied host table goes. Nothing else moves.
pub open spec fn pruned_session(sv: ServeConfigV, hp: Seq<char>, path: Seq<char>) -> ServeConfigV {
    let web0 = sv.web.unwrap();
    let wc0 = vget(web0, hp).unwrap();
    let hs0 = wc0.handlers.unwrap();
    let hs1 = vremove(hs0, path);
    let handlers1 = if hs1.len() == 0 {
        None
    } else {
        Some(hs1)
    };
    let web1 = if handlers1 is None && wc0.unknown.len() == 0 {
        vremove(web0, hp)
    } else {
        vset(web0, hp, WebServerConfigV { handlers: handlers1, unknown: wc0.unknown })
    };
    ServeConfigV {
        tcp: sv.tcp,
        web: if web1.len() == 0 {
            None
        } else {
            Some(web1)
        },
        allow_funnel: sv.allow_funnel,
        foreground: sv.foreground,
        unknown: sv.unknown,
    }
}

/// Pruning preserves well-formedness, so the result can be serialized.
pub proof fn lemma_pruned_session_wf(sv: ServeConfigV, hp: Seq<char>, path: Seq<char>)
    requires
        sc_wf(sv),
        remove_reaches(sv, hp),
    ensures
        sc_wf(pruned_session(sv, hp, path)),
{
    let web0 = sv.web.unwrap();
    let wc0 = vget(web0, hp).unwrap();
    let hs0 = wc0.handlers.unwrap();
    crate::json::lemma_vget_elem(web0, hp);
    let j = choose|j: int| 0 <= j < web0.len() && web0[j] == (hp, wc0);
    assert(crate::codec::wsc_wf(web0[j].1));
    let hs1 = vremove(hs0, path);
    crate::json::lemma_vremove_elems(hs0, path);
    assert forall|i: int| 0 <= i < hs1.len() implies crate::codec::hh_wf(
        #[trigger] hs1[i].1,
    ) by {
        let m = choose|m: int| 0 <= m < hs0.len() && hs1[i] == hs0[m];
        assert(crate::codec::hh_wf(hs0[m].1));
    }
    let handlers1 = if hs1.len() == 0 {
        None
    } else {
        Some(hs1)
    };
    let wc1 = WebServerConfigV { handlers: handlers1, unknown: wc0.unknown };
    assert(crate::codec::wsc_wf(wc1));
    if handlers1 is None && wc0.unknown.len() == 0 {
        crate::json::lemma_vremove_elems(web0, hp);
        assert forall|i: int| 0 <= i < vremove(web0, hp).len() implies crate::codec::wsc_wf(
            #[trigger] vremove(web0, hp)[i].1,
        ) by {
            let m = choose|m: int| 0 <= m < web0.len() && vremove(web0, hp)[i] == web0[m];
            assert(crate::codec::wsc_wf(web0[m].1));
        }
    } else {
        crate::json::lemma_vset_elems(web0, hp, wc1);
        assert forall|i: int| 0 <= i < vset(web0, hp, wc1).len() implies crate::codec::wsc_wf(
            #[trigger] vset(web0, hp, wc1)[i].1,
        ) by {
            if vset(web0, hp, wc1)[i] == (hp, wc1) {
            } else {
                let m = choose|m: int| 0 <= m < web0.len() && vset(web0, hp, wc1)[i] == web0[m];
                assert(crate::codec::wsc_wf(web0[m].1));
            }
        }
    }
}

/// Removes the route at `path` under `foreground[session_id]` for `hp`,
/// reporting whether a handler was there; empty handler tables, bare host
/// entries and an empty host table are pruned. A missing session, host or
/// table is no error: the document is left unchanged and `false` returned.
///
/// Fails exactly when the stored session document does not read as a
/// configuration; the document is then left unchanged.
pub fn remove_patch(
    config: &mut ServeConfig,
    session_id: &str,
    host_port: &str,
    path: &str,
) -> (r: Result<bool, FunnelError>)
    ensures
        match r {
            Ok(removed) => {
                &&& session_parses(old(config)@, session_id@)
                &&& if session_value(old(config)@, session_id@) is None {
                    !removed && *final(config) == *old(config)
                } else {
                    let sv = session_view_or_empty(old(config)@, session_id@);
                    if !remove_reaches(sv, host_port@) {
                        !removed && *final(config) == *old(config)
                    } else {
                        &&& removed == remove_hits(sv, host_port@, path@)
                        &&& final(config)@.tcp == old(config)@.tcp
                        &&& final(config)@.web == old(config)@.web
                        &&& final(config)@.allow_funnel == old(config)@.allow_funnel
                        &&& final(config)@.unknown == old(config)@.unknown
                        &&& final(config).foreground is Some
                        &&& {
                            let fg0 = fg_entries(old(config)@);
                            let fg1 = fg_entries(final(config)@);
                            &&& fg1.len() == fg0.len()
                            &&& match vget(fg1, session_id@) {
                                Some(v1) => sc_from_json(v1) == Some(
                                    pruned_session(sv, host_port@, path@),
                                ),
                                None => false,
                            }
                            &&& vremove(fg1, session_id@) == vremove(fg0, session_id@)
                        }
                    }
                }
            },
            Err(e) => {
                &&& !session_parses(old(config)@, session_id@)
                &&& e@ == FunnelErrorV::Other("Failed to parse session config"@)
                &&& *final(config) == *old(config)
            },
        },
{
    let ghost c0 = config@;
    let ghost fg0 = fg_entries(c0);
    let mut fg: Vec<(String, JsonValue)> = match config.foreground.take() {
        Some(f) => f,
        None => {
            return Ok(false);
        },
    };
    proof {
        assert(entries_view(fg@) =~= fg0);
    }
    let i = match crate::json::assoc_index_of(&fg, session_id) {
        Some(i) => i,
        None => {
            proof {
                crate::json::lemma_vget_absent(fg0, session_id@);
            }
            config.foreground = Some(fg);
            proof {
                assert(*config =~~= *old(config));
            }
            return Ok(false);
        },
    };
    proof {
        crate::json::lemma_vget_at_index(fg0, session_id@, i as int);
        assert(fg0[i as int] == (fg@[i as int].0@, jval(fg@[i as int].1)));
    }
    let cloned = clone_json(&fg[i].1);
    let mut sess = match parse_serve_config(cloned) {
        Some(c) => c,
        None => {
            config.foreground = Some(fg);
            proof {
                assert(*config =~~= *old(config));
            }
            return Err(FunnelError::Other("Failed to parse session config".to_owned()));
        },
    };
    let ghost sv = sess@;
    proof {
        crate::codec::lemma_sc_from_json_wf(jval(fg@[i as int].1));
    }
    let mut web: Vec<(String, WebServerConfig)> = match sess.web.take() {
        Some(w) => w,
        None => {
            config.foreground = Some(fg);
            proof {
                assert(*config =~~= *old(config));
            }
            return Ok(false);
        },
    };
    let ghost web0 = sv.web.unwrap();
    proof {
        assert(crate::types::web_view(web@) =~= web0);
    }
    let wi = match crate::json::assoc_index_of(&web, host_port) {
        Some(wi) => wi,
        None => {
            proof {
                assert forall|j: int| 0 <= j < web0.len() implies web0[j].0 != host_port@ by {
                    assert(web0[j] == (web@[j].0@, web@[j].1@));
                }
                crate::json::lemma_vget_absent(web0, host_port@);
            }
            config.foreground = Some(fg);
            proof {
                assert(*config =~~= *old(config));
            }
            return Ok(false);
        },
    };
    proof {
        assert(web0[wi as int] == (web@[wi as int].0@, web@[wi as int].1@));
        assert forall|j: int| 0 <= j < wi implies web0[j].0 != host_port@ by {
            assert(web0[j] == (web@[j].0@, web@[j].1@));
        }
        crate::json::lemma_vget_at_index(web0, host_port@, wi as int);
    }
    let (wk, mut wc) = web.remove(wi);
    let ghost wc0 = wc@;
    let mut handlers: Vec<(String, HttpHandler)> = match wc.handlers.take() {
        Some(h) => h,
        None => {
            config.foreground = Some(fg);
            proof {
                assert(*config =~~= *old(config));
            }
            return Ok(false);
        },
    };
    let ghost hs0 = wc0.handlers.unwrap();
    proof {
        assert(handlers_view(handlers@) =~= hs0);
    }
    let removed = match crate::json::assoc_index_of(&handlers, path) {
        Some(hi) => {
            proof {
                assert(hs0[hi as int] == (handlers@[hi as int].0@, handlers@[hi as int].1@));
                assert forall|j: int| 0 <= j < hi implies hs0[j].0 != path@ by {
                    assert(hs0[j] == (handlers@[j].0@, handlers@[j].1@));
                }
                crate::json::lemma_vget_at_index(hs0, path@, hi as int);
                crate::json::lemma_vremove_at_index(hs0, path@, hi as int);
            }
            let ghost hprev = handlers@;
            handlers.remove(hi);
            proof {
                assert(handlers_view(handlers@) =~= handlers_view(hprev).remove(hi as int));
            }
            true
        },
        None => {
            proof {
                assert forall|j: int| 0 <= j < hs0.len() implies hs0[j].0 != path@ by {
                    assert(hs0[j] == (handlers@[j].0@, handlers@[j].1@));
                }
                crate::json::lemma_vget_absent(hs0, path@);
                crate::json::lemma_vremove_absent(hs0, path@);
            }
            false
        },
    };
    proof {
        assert(removed == vhas(hs0, path@));
        assert(handlers_view(handlers@) =~= vremove(hs0, path@));
    }
    let hs_empty = handlers.is_empty();
    if hs_empty {
        wc.handlers = None;
    } else {
        wc.handlers = Some(handlers);
    }
    if hs_empty && wc.unknown_fields.is_empty() {
        proof {
            crate::json::lemma_vremove_at_index(web0, host_port@, wi as int);
            assert(crate::types::web_view(web@) =~= vremove(web0, host_port@));
        }
    } else {
        let ghost wc1 = wc@;
        web.insert(wi, (wk, wc));
        proof {
            crate::json::lemma_vset_at_index(web0, host_port@, wc1, wi as int);
            assert(crate::types::web_view(web@) =~= web0.update(wi as int, (host_port@, wc1)));
        }
    }
    if web.is_empty() {
        sess.web = None;
    } else {
        sess.web = Some(web);
    }
    proof {
        assert(sess@ =~~= pruned_session(sv, host_port@, path@));
        lemma_pruned_session_wf(sv, host_port@, path@);
    }
    let new_value = serve_config_to_json(sess);
    let ghost nv = jval(new_value);
    let (k0, _) = fg.remove(i);
    fg.insert(i, (k0, new_value));
    proof {
        assert(entries_view(fg@) =~= fg0.update(i as int, (session_id@, nv)));
        crate::json::lemma_vset_at_index(fg0, session_id@, nv, i as int);
        crate::json::lemma_vget_vset(fg0, session_id@, nv);
        crate::json::lemma_vremove_vset(fg0, session_id@, nv);
    }
    config.foreground = Some(fg);
    Ok(removed)
}

/// Reproposing an identical (path, target): when the table holds the very
/// route proposed and no other entry prefix-conflicts with the path, the
/// scan is an idempotent match exactly when both the existing and the
/// proposed funnel flags are set; otherwise no conflict — never an error.
pub proof fn lemma_identical_reproposal_scan(
    hs: Seq<(Seq<char>, HttpHandlerV)>,
    ef: bool,
    p: Seq<char>,
    t: Seq<char>,
    nf: bool,
)
    requires
        exists|i: int| 0 <= i < hs.len() && #[trigger] hs[i] == (p, proxy_handler_v(t)),
        forall|j: int|
            0 <= j < hs.len() && (#[trigger] hs[j].0) == p ==> hs[j].1 == proxy_handler_v(t),
        forall|j: int|
            0 <= j < hs.len() && (#[trigger] hs[j].0) != p ==> !prefix_mount_captures(hs[j].0, p)
                && !prefix_mount_captures(p, hs[j].0),
    ensures
        scan_handlers(hs, ef, p, t, nf) == if ef && nf {
            DetectV::Idempotent
        } else {
            DetectV::NoConflict
        },
    decreases hs.len(),
{
    assert(target_desc(proxy_handler_v(t)) == t);
    if hs[0].0 == p {
        assert(hs[0].1 == proxy_handler_v(t));
    } else {
        let rest = hs.drop_first();
        let i = choose|i: int| 0 <= i < hs.len() && hs[i] == (p, proxy_handler_v(t));
        assert(rest[i - 1] == (p, proxy_handler_v(t)));
        lemma_identical_reproposal_scan(rest, ef, p, t, nf);
    }
}

/// The same, lifted to a configuration: reproposing the identical route
/// installed for the host is idempotent exactly when both funnel flags are
/// set, else a safe no-op.
pub proof fn lemma_identical_reproposal_idempotent(
    c: ServeConfigV,
    hp: Seq<char>,
    p: Seq<char>,
    t: Seq<char>,
    nf: bool,
)
    requires
        sc_handlers(c, hp) matches Some(hs) && (exists|i: int|
            0 <= i < hs.len() && #[trigger] hs[i] == (p, proxy_handler_v(t))) && (forall|j: int|
            0 <= j < hs.len() && (#[trigger] hs[j].0) == p ==> hs[j].1 == proxy_handler_v(t)) && (
        forall|j: int|
            0 <= j < hs.len() && (#[trigger] hs[j].0) != p ==> !prefix_mount_captures(hs[j].0, p)
                && !prefix_mount_captures(p, hs[j].0)),
    ensures
        detect_spec(c, hp, p, t, nf) == if sc_funnel_enabled(c, hp) && nf {
            DetectV::Idempotent
        } else {
            DetectV::NoConflict
        },
{
    lemma_identical_reproposal_scan(sc_handlers(c, hp).unwrap(), sc_funnel_enabled(c, hp), p, t, nf);
}

/// Applying a route to an empty session configuration and then removing the
/// same (host, path) leaves no empty handler or host containers behind: the
/// emptied handler table, the bare host entry and the emptied host table are
/// all pruned, and nothing else of the empty session appears.
pub proof fn lemma_apply_then_remove_leaves_no_empty_containers(
    hp: Seq<char>,
    path: Seq<char>,
    target: Seq<char>,
    funnel: bool,
)
    ensures
        ({
            let patched = patched_session(sc_empty(), hp, path, target, funnel);
            let cleaned = pruned_session(patched, hp, path);
            &&& remove_hits(patched, hp, path)
            &&& cleaned.web is None
            &&& cleaned.tcp is None
            &&& cleaned.foreground is None
            &&& cleaned.unknown == Seq::<(Seq<char>, JVal)>::empty()
        }),
{
    let hv = proxy_handler_v(target);
    let hs1 = vset(Seq::<(Seq<char>, HttpHandlerV)>::empty(), path, hv);
    assert(hs1 =~= seq![(path, hv)]);
    let wc1 = WebServerConfigV { handlers: Some(hs1), unknown: Seq::empty() };
    let web1 = vset(Seq::<(Seq<char>, WebServerConfigV)>::empty(), hp, wc1);
    assert(web1 =~= seq![(hp, wc1)]);
    let patched = patched_session(sc_empty(), hp, path, target, funnel);
    assert(patched.web == Some(web1));
    assert(vget(web1, hp) == Some(wc1));
    assert(vget(hs1, path) == Some(hv));
    assert(remove_hits(patched, hp, path));
    assert(vremove(hs1, path) =~= Seq::<(Seq<char>, HttpHandlerV)>::empty());
    assert(vremove(web1, hp) =~= Seq::<(Seq<char>, WebServerConfigV)>::empty());
}

} // verus!
