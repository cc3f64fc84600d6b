//! The apply orchestrator's decisions: prerequisite validation, the
//! concurrency token, the conflict-check-and-patch step of each attempt, the
//! write-retry rule of the bounded optimistic-concurrency loop, and the
//! public URL.
use crate::codec::sc_from_json;
use crate::error::map_transport_error;
use crate::error::map_transport_error_spec;
use crate::error::FunnelError;
use crate::error::FunnelErrorV;
use crate::error::LocalApiError;
use crate::error::LocalApiErrorV;
use crate::json::clone_json;
use crate::json::jval;
use crate::json::JVal;
use crate::json::JsonValue;
use crate::patch::apply_patch;
use crate::patch::conflict_description;
use crate::patch::detect_conflicts;
use crate::patch::detect_spec;
use crate::patch::fg_entries;
use crate::patch::session_parses;
use crate::patch::DetectV;
use crate::status::BackendStatus;
use crate::status::BackendStatusV;
use crate::types::sc_empty;
use crate::types::ServeConfig;
use crate::types::ServeConfigV;
use crate::version::ensure_version_supported;
use crate::version::parse_version_spec;
use crate::version::version_at_least_min;
use vstd::prelude::*;
use vstd::string::StringExecFns;

verus! {

/// Requires the serving-configuration reply to carry a concurrency token; a
/// daemon that sends none is too old for safe writes.
pub fn require_etag(etag: Option<String>) -> (r: Result<String, FunnelError>)
    ensures
        match r {
            Ok(t) => etag matches Some(e) && t@ == e@,
            Err(e) => etag is None && e@ == (FunnelErrorV::VersionTooOld {
                context: "ServeConfig ETag missing; LocalAPI too old"@,
            }),
        },
{
    match etag {
        Some(t) => Ok(t),
        None => Err(
            FunnelError::VersionTooOld {
                context: "ServeConfig ETag missing; LocalAPI too old".to_owned(),
            },
        ),
    }
}

/// What prerequisite validation yields for a status: the assigned DNS name,
/// or the first unmet prerequisite — version, DNS name, HTTPS, funnel — as a
/// distinct error.
pub open spec fn prerequisites_of(s: BackendStatusV) -> Result<Seq<char>, FunnelErrorV> {
    let version_ok = s.version matches Some(v) && (parse_version_spec(v) matches Some(t)
        && version_at_least_min(t));
    if !version_ok {
        Err(
            match s.version {
                None => FunnelErrorV::VersionTooOld { context: "tailscaled version missing"@ },
                Some(v) => FunnelErrorV::VersionTooOld {
                    context: if parse_version_spec(v) is None {
                        "Unsupported tailscaled version "@ + v
                    } else {
                        "tailscaled version "@ + v + " is not supported"@
                    },
                },
            },
        )
    } else if s.dns_name is None {
        Err(FunnelErrorV::Prerequisites { context: "Node not yet assigned DNS name"@ })
    } else if s.https_enabled != Some(true) {
        Err(FunnelErrorV::Prerequisites { context: "HTTPS not enabled. Run `tailscale cert`"@ })
    } else if s.funnel_enabled != Some(true) {
        Err(FunnelErrorV::Prerequisites { context: "Funnel not enabled in tailnet policy"@ })
    } else {
        Ok(s.dns_name.unwrap())
    }
}

/// Validates the fetched status: the daemon version must reach the minimum,
/// the node must have a DNS name, an HTTPS certificate, and the funnel
/// capability. Yields the DNS name.
pub fn validate_prerequisites(status: &BackendStatus) -> (r: Result<String, FunnelError>)
    ensures
        match r {
            Ok(dns) => prerequisites_of(status@) == Ok::<Seq<char>, FunnelErrorV>(dns@),
            Err(e) => prerequisites_of(status@) == Err::<Seq<char>, FunnelErrorV>(e@),
        },
{
    let version: Option<&str> = match &status.version {
        Some(v) => Some(v.as_str()),
        None => None,
    };
    match ensure_version_supported(version) {
        Ok(()) => {},
        Err(e) => {
            return Err(e);
        },
    }
    let dns_name = match &status.dns_name {
        Some(d) => d.clone(),
        None => {
            return Err(
                FunnelError::Prerequisites { context: "Node not yet assigned DNS name".to_owned() },
            );
        },
    };
    let https_ok = match status.https_enabled {
        Some(b) => b,
        None => false,
    };
    if !https_ok {
        return Err(
            FunnelError::Prerequisites {
                context: "HTTPS not enabled. Run `tailscale cert`".to_owned(),
            },
        );
    }
    let funnel_ok = match status.funnel_enabled {
        Some(b) => b,
        None => false,
    };
    if !funnel_ok {
        return Err(
            FunnelError::Prerequisites {
                context: "Funnel not enabled in tailnet policy".to_owned(),
            },
        );
    }
    Ok(dns_name)
}

/// The `host:port` a route is keyed by.
pub fn host_port_of(dns_name: &str, https_port: u16) -> (r: String)
    ensures
        r@ == dns_name@ + ":"@ + crate::strutil::dec_digits(https_port as nat),
{
    let mut s = dns_name.to_owned();
    s.append(":");
    let p = crate::strutil::u16_to_string(https_port);
    s.append(p.as_str());
    proof {
        reveal_strlit(":");
        assert(s@ =~= dns_name@ + ":"@ + crate::strutil::dec_digits(https_port as nat));
    }
    s
}

/// The base of the public URL: the port is written only when it is not 443.
pub open spec fn https_base_of(dns_name: Seq<char>, https_port: u16) -> Seq<char> {
    if https_port == 443 {
        "https://"@ + dns_name
    } else {
        "https://"@ + dns_name + ":"@ + crate::strutil::dec_digits(https_port as nat)
    }
}

/// Builds the base of the public URL.
pub fn https_base_text(dns_name: &str, https_port: u16) -> (r: String)
    ensures
        r@ == https_base_of(dns_name@, https_port),
{
    let mut s = "https://".to_owned();
    s.append(dns_name);
    if https_port != 443 {
        s.append(":");
        let p = crate::strutil::u16_to_string(https_port);
        s.append(p.as_str());
        proof {
            reveal_strlit(":");
            assert(s@ =~= https_base_of(dns_name@, https_port));
        }
    }
    s
}

/// Relies on `url::Url::set_path` to install the path component; nothing is
/// assumed of the resulting URL.
pub assume_specification [ url::Url::set_path ](u: &mut url::Url, path: &str);

/// The externally visible URL: the base for the DNS name and public port
/// (written exactly when it is not 443), with the requested path installed
/// by the `url` crate. Succeeds exactly when the `url` crate accepts the
/// base text.
pub fn build_url(dns_name: &str, https_port: u16, path: &str) -> (r: Result<url::Url, FunnelError>)
    ensures
        r is Ok <==> crate::tunnel::url_parse_ok(https_base_of(dns_name@, https_port)),
        r is Err ==> r->Err_0@ == FunnelErrorV::Other("Failed to build URL"@),
{
    let base = https_base_text(dns_name, https_port);
    let mut url = match url::Url::parse(base.as_str()) {
        Ok(u) => u,
        Err(_) => {
            return Err(FunnelError::Other("Failed to build URL".to_owned()));
        },
    };
    url.set_path(path);
    Ok(url)
}

/// The nested configuration a stored foreground value denotes: a null value
/// is an empty one, as when the daemon has no document yet.
pub open spec fn session_cfg_of(v: JVal) -> Option<ServeConfigV> {
    if v == JVal::Null {
        Some(sc_empty())
    } else {
        sc_from_json(v)
    }
}

/// Reads a fetched document as a configuration: a null reply is the empty
/// configuration; a malformed one is a failed apply.
pub fn value_to_config(value: JsonValue) -> (r: Result<ServeConfig, FunnelError>)
    ensures
        match r {
            Ok(c) => session_cfg_of(value@) == Some(c@),
            Err(e) => session_cfg_of(value@) is None && e@ == (FunnelErrorV::ApplyFailed {
                context: "Failed to parse ServeConfig"@,
            }),
        },
{
    match value {
        JsonValue::Null => Ok(ServeConfig::new()),
        other => match crate::codec::parse_serve_config(other) {
            Some(c) => Ok(c),
            None => Err(
                FunnelError::ApplyFailed { context: "Failed to parse ServeConfig".to_owned() },
            ),
        },
    }
}

/// The first error the per-session conflict walk raises, scanning the
/// foreground table in order: a malformed session document fails the apply
/// even when forcing; any decisive scan outcome against another session is a
/// conflict unless forcing.
pub open spec fn fg_scan(
    fg: Seq<(Seq<char>, JVal)>,
    hp: Seq<char>,
    np: Seq<char>,
    nt: Seq<char>,
    nf: bool,
    force: bool,
) -> Option<FunnelErrorV>
    decreases fg.len(),
{
    if fg.len() == 0 {
        None
    } else {
        match session_cfg_of(fg[0].1) {
            None => Some(FunnelErrorV::ApplyFailed { context: "Failed to parse ServeConfig"@ }),
            Some(sc) => {
                let d = detect_spec(sc, hp, np, nt, nf);
                if d is NoConflict || force {
                    fg_scan(fg.drop_first(), hp, np, nt, nf, force)
                } else {
                    match d {
                        DetectV::Clash(c) => Some(
                            FunnelErrorV::Conflict {
                                context: conflict_description(c) + " (session "@ + fg[0].0 + ")"@,
                            },
                        ),
                        _ => Some(
                            FunnelErrorV::Conflict {
                                context: "Path "@ + np
                                    + " already in use by foreground session "@ + fg[0].0,
                            },
                        ),
                    }
                }
            },
        }
    }
}

/// One attempt's conflict-check-and-patch step, on a freshly fetched
/// configuration: the proposed route is checked against the top-level table
/// for the host (a conflict fails unless forcing), then against every other
/// session's nested document (likewise), and then installed under the
/// caller's session. The document mutates only in the returned copy.
pub fn plan_commit(
    config: ServeConfig,
    session_id: &str,
    host_port: &str,
    path: &str,
    target: &str,
    funnel: bool,
    force: bool,
) -> (r: Result<ServeConfig, FunnelError>)
    ensures
        ({
            let cv = config@;
            let top = detect_spec(cv, host_port@, path@, target@, funnel);
            let scan = fg_scan(fg_entries(cv), host_port@, path@, target@, funnel, force);
            match r {
                Ok(out) => {
                    &&& (top is Clash ==> force)
                    &&& scan is None
                    &&& session_parses(cv, session_id@)
                    &&& out@.tcp == cv.tcp
                    &&& out@.web == cv.web
                    &&& out@.allow_funnel == cv.allow_funnel
                    &&& out@.unknown == cv.unknown
                    &&& out.foreground is Some
                    &&& {
                        let fg0 = fg_entries(cv);
                        let fg1 = fg_entries(out@);
                        &&& match crate::json::vget(fg1, session_id@) {
                            Some(v1) => sc_from_json(v1) == Some(
                                crate::patch::patched_session(
                                    crate::patch::session_view_or_empty(cv, session_id@),
                                    host_port@,
                                    path@,
                                    target@,
                                    funnel,
                                ),
                            ),
                            None => false,
                        }
                        &&& crate::json::vremove(fg1, session_id@) == crate::json::vremove(
                            fg0,
                            session_id@,
                        )
                    }
                },
                Err(e) => {
                    if top is Clash && !force {
                        e@ == (FunnelErrorV::Conflict {
                            context: conflict_description(top->Clash_0),
                        })
                    } else if scan is Some {
                        Some(e@) == scan
                    } else {
                        !session_parses(cv, session_id@) && e@ == FunnelErrorV::Other(
                            "Failed to parse session config"@,
                        )
                    }
                },
            }
        }),
{
    let ghost cv = config@;
    match detect_conflicts(&config, host_port, path, target, funnel) {
        Ok(_) => {},
        Err(conflict) => {
            if !force {
                let context = conflict.describe();
                return Err(FunnelError::Conflict { context });
            }
        },
    }
    let ghost fgv = fg_entries(cv);
    match &config.foreground {
        Some(fg) => {
            proof {
                assert(crate::json::entries_view(fg@) =~= fgv);
            }
            let mut i: usize = 0;
            proof {
                assert(fgv.skip(0) =~= fgv);
            }
            while i < fg.len()
                invariant
                    i <= fg@.len(),
                    fgv == crate::json::entries_view(fg@),
                    fg@.len() == fgv.len(),
                    fg_scan(fgv, host_port@, path@, target@, funnel, force) == fg_scan(
                        fgv.skip(i as int),
                        host_port@,
                        path@,
                        target@,
                        funnel,
                        force,
                    ),
                decreases fg@.len() - i,
            {
                proof {
                    assert(fgv.skip(i as int)[0] == fgv[i as int]);
                    assert(fgv[i as int] == (fg@[i as int].0@, jval(fg@[i as int].1)));
                }
                let cloned = clone_json(&fg[i].1);
                let session_config = match value_to_config(cloned) {
                    Ok(c) => c,
                    Err(e) => {
                        return Err(e);
                    },
                };
                match detect_conflicts(&session_config, host_port, path, target, funnel) {
                    Ok(None) => {},
                    Ok(Some(_)) => {
                        if !force {
                            let mut context = "Path ".to_owned();
                            context.append(path);
                            context.append(" already in use by foreground session ");
                            context.append(fg[i].0.as_str());
                            return Err(FunnelError::Conflict { context });
                        }
                    },
                    Err(conflict) => {
                        if !force {
                            let mut context = conflict.describe();
                            context.append(" (session ");
                            context.append(fg[i].0.as_str());
                            context.append(")");
                            return Err(FunnelError::Conflict { context });
                        }
                    },
                }
                proof {
                    assert(fgv.skip(i as int).drop_first() =~= fgv.skip(i + 1));
                }
                i += 1;
            }
        },
        None => {},
    }
    let mut config = config;
    match apply_patch(&mut config, session_id, host_port, path, target, funnel) {
        Ok(()) => Ok(config),
        Err(e) => Err(e),
    }
}

/// View of a `CommitDecision`.
#[verifier::ext_equal]
pub enum CommitDecisionV {
    Committed,
    Retry,
    Fail(FunnelErrorV),
}

/// What one write outcome means for the attempt loop: done, fetch afresh and
/// try again, or give up with an error.
#[derive(Debug, PartialEq, Eq)]
pub enum CommitDecision {
    Committed,
    Retry,
    Fail(FunnelError),
}

impl View for CommitDecision {
    type V = CommitDecisionV;

    open spec fn view(&self) -> CommitDecisionV {
        match self {
            CommitDecision::Committed => CommitDecisionV::Committed,
            CommitDecision::Retry => CommitDecisionV::Retry,
            CommitDecision::Fail(e) => CommitDecisionV::Fail(e@),
        }
    }
}

/// Whether a write's status reports a lost optimistic-concurrency race: the
/// precondition failed or the document conflicted.
pub open spec fn retryable_write_status(status: u16) -> bool {
    status == 412 || status == 409
}

/// The fatal error after the attempts are exhausted.
pub open spec fn concurrent_modification_error() -> FunnelErrorV {
    FunnelErrorV::ApplyFailed { context: "ServeConfig changed concurrently; retry later"@ }
}

/// What one write outcome decides on attempt number `attempt` (counted from
/// one): success commits; a lost race retries the whole fetch-and-patch
/// cycle until the third attempt, after which it is a fatal
/// concurrent-modification error; anything else is translated and fatal.
pub open spec fn commit_decision_spec(
    outcome: Result<(), LocalApiErrorV>,
    attempt: u8,
) -> CommitDecisionV {
    match outcome {
        Ok(()) => CommitDecisionV::Committed,
        Err(e) => match e {
            LocalApiErrorV::HttpStatus { status, .. } => if retryable_write_status(status) {
                if attempt >= 3 {
                    CommitDecisionV::Fail(concurrent_modification_error())
                } else {
                    CommitDecisionV::Retry
                }
            } else {
                CommitDecisionV::Fail(map_transport_error_spec(e))
            },
            _ => CommitDecisionV::Fail(map_transport_error_spec(e)),
        },
    }
}

/// The view of a write outcome.
pub open spec fn outcome_view(o: &Result<(), LocalApiError>) -> Result<(), LocalApiErrorV> {
    match o {
        Ok(()) => Ok(()),
        Err(e) => Err(e@),
    }
}

/// Decides what one write outcome means for the attempt loop.
pub fn commit_write_decision(outcome: Result<(), LocalApiError>, attempt: u8) -> (r: CommitDecision)
    ensures
        r@ == commit_decision_spec(outcome_view(&outcome), attempt),
{
    match outcome {
        Ok(()) => CommitDecision::Committed,
        Err(e) => {
            let retryable = match &e {
                LocalApiError::HttpStatus { status, .. } => *status == 412 || *status == 409,
                _ => false,
            };
            if retryable {
                if attempt >= 3 {
                    CommitDecision::Fail(
                        FunnelError::ApplyFailed {
                            context: "ServeConfig changed concurrently; retry later".to_owned(),
                        },
                    )
                } else {
                    CommitDecision::Retry
                }
            } else {
                CommitDecision::Fail(map_transport_error(e))
            }
        },
    }
}

/// How a run of the attempt loop ends over a recorded sequence of write
/// outcomes, starting at attempt `attempt`: the final decision and how many
/// fetch-and-patch cycles ran.
pub open spec fn commit_run(
    outcomes: Seq<Result<(), LocalApiErrorV>>,
    attempt: u8,
) -> (CommitDecisionV, nat)
    recommends
        outcomes.len() > 0,
    decreases outcomes.len(),
{
    if outcomes.len() == 0 {
        (CommitDecisionV::Retry, 0)
    } else {
        let d = commit_decision_spec(outcomes[0], attempt);
        if d is Retry && outcomes.len() > 1 && attempt < 255 {
            let rest = commit_run(outcomes.drop_first(), (attempt + 1) as u8);
            (rest.0, rest.1 + 1)
        } else {
            (d, 1)
        }
    }
}

/// Whether an outcome reports a lost race.
pub open spec fn lost_race(o: Result<(), LocalApiErrorV>) -> bool {
    o matches Err(e) && (e matches LocalApiErrorV::HttpStatus { status, .. }
        && retryable_write_status(status))
}

/// A write failing its precondition twice and succeeding on the third
/// attempt yields overall success after exactly three fetch-and-patch
/// cycles.
pub proof fn lemma_third_attempt_commits(outcomes: Seq<Result<(), LocalApiErrorV>>)
    requires
        outcomes.len() >= 3,
        lost_race(outcomes[0]),
        lost_race(outcomes[1]),
        outcomes[2] == Ok::<(), LocalApiErrorV>(()),
    ensures
        commit_run(outcomes, 1) == (CommitDecisionV::Committed, 3nat),
{
    let o1 = outcomes.drop_first();
    let o2 = o1.drop_first();
    assert(o1[0] == outcomes[1]);
    assert(o2[0] == outcomes[2]);
    assert(commit_run(o2, 3) == (CommitDecisionV::Committed, 1nat));
    assert(commit_run(o1, 2) == (CommitDecisionV::Committed, 2nat));
}

/// Three consecutive lost races exhaust the attempts: the loop ends with the
/// fatal concurrent-modification error after exactly three cycles, whatever
/// might have come after.
pub proof fn lemma_exhausted_attempts_fatal(outcomes: Seq<Result<(), LocalApiErrorV>>)
    requires
        outcomes.len() >= 3,
        lost_race(outcomes[0]),
        lost_race(outcomes[1]),
        lost_race(outcomes[2]),
    ensures
        commit_run(outcomes, 1) == (
            CommitDecisionV::Fail(concurrent_modification_error()),
            3nat,
        ),
{
    let o1 = outcomes.drop_first();
    let o2 = o1.drop_first();
    assert(o1[0] == outcomes[1]);
    assert(o2[0] == outcomes[2]);
    assert(commit_run(o2, 3) == (
        CommitDecisionV::Fail(concurrent_modification_error()),
        1nat,
    ));
    assert(commit_run(o1, 2) == (
        CommitDecisionV::Fail(concurrent_modification_error()),
        2nat,
    ));
}

/// A write accepted at once commits after one cycle.
pub proof fn lemma_first_attempt_commits(outcomes: Seq<Result<(), LocalApiErrorV>>)
    requires
        outcomes.len() >= 1,
        outcomes[0] == Ok::<(), LocalApiErrorV>(()),
    ensures
        commit_run(outcomes, 1) == (CommitDecisionV::Committed, 1nat),
{
}

} // verus!
