//! The open command's decisions: argument validation, the default random
//! path, TTL parsing, the loopback gate, and expiry arithmetic.
use crate::error::FunnelError;
use crate::error::FunnelErrorV;
use crate::validation::allowed_https_port;
use crate::validation::normalized_path_of;
use crate::validation::validate_https_port;
use crate::validation::validate_path;
use crate::validation::validate_port;
use crate::validation::validate_ttl;
use crate::validation::ValidationWarning;
use crate::validation::ValidationWarningV;
use rand::Rng;
use vstd::prelude::*;
use vstd::string::StringExecFns;

verus! {

/// The open command's inputs.
#[derive(Debug, Clone, PartialEq, Eq)]
pub struct OpenArgs {
    pub port: u16,
    pub bind: String,
    pub path: Option<String>,
    pub https_port: u16,
    pub ttl: Option<String>,
    pub force: bool,
    pub json: bool,
    pub socket: Option<String>,
    pub localapi_port: Option<u16>,
    pub localapi_password_file: Option<String>,
    pub allow_non_loopback: bool,
}

/// The open command.
#[derive(Debug, Clone, PartialEq, Eq)]
pub struct OpenCommand {
    pub args: OpenArgs,
}

/// What `humantime` reads a duration string as, in whole seconds.
pub uninterp spec fn human_duration_secs(s: Seq<char>) -> Option<u64>;

/// Relies on `humantime::parse_duration` (truncated to whole seconds via
/// `Duration::as_secs`): a function of the text alone.
#[verifier::external_body]
fn parse_duration_secs(value: &str) -> (r: Option<u64>)
    ensures
        r == human_duration_secs(value@),
{
    match humantime::parse_duration(value) {
        Ok(d) => Some(d.as_secs()),
        Err(_) => None,
    }
}

/// Parses a TTL argument such as `30m`, in whole seconds.
pub fn parse_ttl(value: &str) -> (r: Result<u64, FunnelError>)
    ensures
        match r {
            Ok(secs) => human_duration_secs(value@) == Some(secs),
            Err(e) => human_duration_secs(value@) is None && e@ == FunnelErrorV::InvalidArgument(
                "Invalid TTL '"@ + value@ + "'"@,
            ),
        },
{
    match parse_duration_secs(value) {
        Some(secs) => Ok(secs),
        None => {
            let mut m = "Invalid TTL '".to_owned();
            m.append(value);
            m.append("'");
            Err(FunnelError::InvalidArgument(m))
        },
    }
}

/// Whether `c` is an ASCII letter or digit.
pub open spec fn is_alphanumeric_char(c: char) -> bool {
    ||| ('a' as u32 <= c as u32 && c as u32 <= 'z' as u32)
    ||| ('A' as u32 <= c as u32 && c as u32 <= 'Z' as u32)
    ||| ('0' as u32 <= c as u32 && c as u32 <= '9' as u32)
}

/// Relies on rand's `Alphanumeric` distribution: eight characters drawn from
/// the ASCII letters and digits. Which ones is up to chance.
#[verifier::external_body]
fn random_alphanumeric8() -> (r: String)
    ensures
        r@.len() == 8,
        forall|i: int| 0 <= i < r@.len() ==> is_alphanumeric_char(#[trigger] r@[i]),
{
    rand::thread_rng()
        .sample_iter(&rand::distributions::Alphanumeric)
        .take(8)
        .map(char::from)
        .collect()
}

/// The default path: a fixed prefix and eight random alphanumeric
/// characters.
pub fn generate_random_path() -> (r: String)
    ensures
        r@.len() == 19,
        r@.subrange(0, 11) == "/funnelctl/"@,
        forall|i: int| 11 <= i < 19 ==> is_alphanumeric_char(#[trigger] r@[i]),
{
    proof {
        reveal_strlit("/funnelctl/");
    }
    let mut s = "/funnelctl/".to_owned();
    let token = random_alphanumeric8();
    s.append(token.as_str());
    proof {
        assert(s@.subrange(0, 11) =~= "/funnelctl/"@);
    }
    s
}

/// Refuses a non-loopback bind address unless expressly allowed.
pub fn ensure_loopback_allowed(is_loopback: bool, allow_non_loopback: bool) -> (r: Result<
    (),
    FunnelError,
>)
    ensures
        match r {
            Ok(()) => is_loopback || allow_non_loopback,
            Err(e) => !is_loopback && !allow_non_loopback && e@ == FunnelErrorV::InvalidArgument(
                "Non-loopback bind requires --allow-non-loopback"@,
            ),
        },
{
    if !allow_non_loopback && !is_loopback {
        return Err(
            FunnelError::InvalidArgument("Non-loopback bind requires --allow-non-loopback".to_owned()),
        );
    }
    Ok(())
}

/// The error for a bind address that is not an IP address.
pub fn invalid_bind_error(bind: &str) -> (r: FunnelError)
    ensures
        r@ == FunnelErrorV::InvalidArgument(
            "Invalid bind address '"@ + bind@ + "'. Use 127.0.0.1, ::1, or localhost"@,
        ),
{
    let mut m = "Invalid bind address '".to_owned();
    m.append(bind);
    m.append("'. Use 127.0.0.1, ::1, or localhost");
    FunnelError::InvalidArgument(m)
}

/// When the tunnel expires: the start plus the TTL, unless that overflows
/// the clock's range.
pub fn expires_epoch(started_at: i64, ttl_secs: u64) -> (r: Option<i64>)
    ensures
        match r {
            Some(t) => started_at + ttl_secs <= i64::MAX && t == started_at + ttl_secs,
            None => ttl_secs > i64::MAX || started_at + ttl_secs > i64::MAX,
        },
{
    if ttl_secs > i64::MAX as u64 {
        return None;
    }
    let t = ttl_secs as i64;
    if started_at >= 0 && t > i64::MAX - started_at {
        return None;
    }
    Some(started_at + t)
}

/// The run time in whole seconds; a clock that went backwards reads as zero.
pub fn duration_seconds_between(started_at: i64, stopped_at: i64) -> (r: u64)
    ensures
        stopped_at > started_at ==> r == stopped_at - started_at,
        stopped_at <= started_at ==> r == 0,
{
    if stopped_at <= started_at {
        0
    } else {
        let d: i128 = (stopped_at as i128) - (started_at as i128);
        d as u64
    }
}

/// The path warnings of a validated path.
pub open spec fn path_warnings_of(chosen: Seq<char>) -> Seq<ValidationWarningV> {
    if normalized_path_of(chosen).len() < 8 {
        seq![
            ValidationWarningV::PathTooShort {
                path: normalized_path_of(chosen),
                length: normalized_path_of(chosen).len(),
            },
        ]
    } else {
        Seq::empty()
    }
}

/// The TTL warnings of an accepted TTL.
pub open spec fn ttl_warnings_of(ttl: Option<u64>) -> Seq<ValidationWarningV> {
    match ttl {
        Some(secs) => if secs < 300 {
            seq![ValidationWarningV::TtlTooShort { ttl: secs }]
        } else {
            Seq::empty()
        },
        None => Seq::empty(),
    }
}

/// A validated open request: the normalized path, the accepted TTL, and the
/// warnings to show, in order.
#[derive(Debug, PartialEq, Eq)]
pub struct PreparedOpen {
    pub path: String,
    pub ttl: Option<u64>,
    pub warnings: Vec<ValidationWarning>,
}

/// The view of a warning list.
pub open spec fn warnings_view(ws: Seq<ValidationWarning>) -> Seq<ValidationWarningV> {
    ws.map_values(|w: ValidationWarning| w@)
}

impl OpenCommand {
    pub fn new(args: OpenArgs) -> (r: Self)
        ensures
            r.args == args,
    {
        Self { args }
    }

    /// Validates the ports, in order: the local port, then the public HTTPS
    /// port.
    pub fn validate_ports(&self) -> (r: Result<(), FunnelError>)
        ensures
            match r {
                Ok(()) => self.args.port != 0 && allowed_https_port(self.args.https_port),
                Err(e) => if self.args.port == 0 {
                    e@ == FunnelErrorV::InvalidArgument("port must be between 1 and 65535"@)
                } else {
                    !allowed_https_port(self.args.https_port) && e@
                        == FunnelErrorV::InvalidArgument(
                        "HTTPS port must be one of [443, 8443, 10000], got "@
                            + crate::strutil::dec_digits(self.args.https_port as nat),
                    )
                },
            },
    {
        match validate_port(self.args.port) {
            Ok(()) => {},
            Err(e) => {
                return Err(e);
            },
        }
        validate_https_port(self.args.https_port)
    }

    /// Validates and normalizes the path (the given one, else `default_path`)
    /// and the TTL, collecting the warnings in order: path first, TTL after.
    pub fn prepare_path_and_ttl(&self, default_path: String) -> (r: Result<
        PreparedOpen,
        FunnelError,
    >)
        ensures
            ({
                let chosen = match self.args.path {
                    Some(p) => p@,
                    None => default_path@,
                };
                match r {
                    Ok(p) => {
                        &&& chosen.len() > 0 && chosen[0] == '/'
                        &&& !crate::validation::has_control_char(chosen)
                        &&& !crate::validation::has_dotdot_segment(chosen)
                        &&& p.path@ == normalized_path_of(chosen)
                        &&& match self.args.ttl {
                            Some(t) => human_duration_secs(t@) matches Some(secs) && secs >= 30
                                && p.ttl == Some(secs),
                            None => p.ttl is None,
                        }
                        &&& warnings_view(p.warnings@) == path_warnings_of(chosen)
                            + ttl_warnings_of(p.ttl)
                    },
                    Err(e) => {
                        let path_bad = !(chosen.len() > 0 && chosen[0] == '/')
                            || crate::validation::has_control_char(chosen)
                            || crate::validation::has_dotdot_segment(chosen);
                        if path_bad {
                            e@ == if !(chosen.len() > 0 && chosen[0] == '/') {
                                FunnelErrorV::InvalidArgument("path must start with '/'"@)
                            } else if crate::validation::has_control_char(chosen) {
                                FunnelErrorV::InvalidArgument("path contains control characters"@)
                            } else {
                                FunnelErrorV::InvalidArgument("path cannot contain '..' segments"@)
                            }
                        } else {
                            match self.args.ttl {
                                Some(t) => match human_duration_secs(t@) {
                                    Some(secs) => secs < 30 && e@ == FunnelErrorV::InvalidArgument(
                                        "TTL must be at least 30 seconds, got "@
                                            + crate::strutil::dec_digits(secs as nat) + " seconds"@,
                                    ),
                                    None => e@ == FunnelErrorV::InvalidArgument(
                                        "Invalid TTL '"@ + t@ + "'"@,
                                    ),
                                },
                                None => false,
                            }
                        }
                    },
                }
            }),
    {
        let chosen: &String = match &self.args.path {
            Some(p) => p,
            None => &default_path,
        };
        let path_result = match validate_path(chosen.as_str()) {
            Ok(res) => res,
            Err(e) => {
                return Err(e);
            },
        };
        let mut warnings = path_result.warnings;
        let ghost pw = warnings_view(warnings@);
        let ttl: Option<u64> = match &self.args.ttl {
            Some(value) => {
                let secs = match parse_ttl(value.as_str()) {
                    Ok(secs) => secs,
                    Err(e) => {
                        return Err(e);
                    },
                };
                let ttl_result = match validate_ttl(secs) {
                    Ok(res) => res,
                    Err(e) => {
                        return Err(e);
                    },
                };
                let mut tw = ttl_result.warnings;
                let ghost tw0 = warnings_view(tw@);
                warnings.append(&mut tw);
                proof {
                    assert(warnings_view(warnings@) =~= pw + tw0);
                }
                Some(ttl_result.ttl)
            },
            None => {
                proof {
                    assert(warnings_view(warnings@) =~= pw + Seq::<ValidationWarningV>::empty());
                }
                None
            },
        };
        let ghost chosen_seq = match &self.args.path {
            Some(p) => p@,
            None => default_path@,
        };
        proof {
            assert(path_warnings_of(chosen_seq) =~= pw);
            assert(warnings_view(warnings@) =~= path_warnings_of(chosen_seq) + ttl_warnings_of(
                ttl,
            ));
        }
        Ok(PreparedOpen { path: path_result.normalized_path, ttl, warnings })
    }
}

} // verus!
