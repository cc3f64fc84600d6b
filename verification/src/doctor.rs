//! The diagnosis report: one check per prerequisite, evaluated from a status
//! fetch's outcome, and the exit code chosen from the failures.
use crate::error::FunnelError;
use crate::error::FunnelErrorV;
use crate::status::BackendStatus;
use crate::status::BackendStatusV;
use crate::version::version_supported;
use crate::version::version_supported_spec;
use vstd::prelude::*;
use vstd::string::StringExecFns;

verus! {

/// View of a `CheckResult`.
#[verifier::ext_equal]
pub struct CheckResultV {
    pub name: Seq<char>,
    pub passed: bool,
    pub message: Seq<char>,
    pub error_code: Option<i32>,
}

/// One line of the diagnosis report.
#[derive(Debug, PartialEq, Eq)]
pub struct CheckResult {
    pub name: String,
    pub passed: bool,
    pub message: String,
    pub error_code: Option<i32>,
}

impl View for CheckResult {
    type V = CheckResultV;

    open spec fn view(&self) -> CheckResultV {
        CheckResultV {
            name: self.name@,
            passed: self.passed,
            message: self.message@,
            error_code: self.error_code,
        }
    }
}

/// View of a list of checks.
pub open spec fn checks_view(cs: Seq<CheckResult>) -> Seq<CheckResultV> {
    cs.map_values(|c: CheckResult| c@)
}

/// Whether the status fetch shows a reachable daemon: any reply, even a
/// permission refusal, counts.
pub open spec fn reachable_check_of(r: Result<BackendStatusV, FunnelErrorV>) -> CheckResultV {
    let ok = match r {
        Ok(_) => true,
        Err(e) => e is Permission,
    };
    if ok {
        CheckResultV {
            name: "tailscaled reachable"@,
            passed: true,
            message: "Socket exists and responds"@,
            error_code: None,
        }
    } else {
        CheckResultV {
            name: "tailscaled reachable"@,
            passed: false,
            message: "tailscaled not running"@,
            error_code: Some(10),
        }
    }
}

/// Whether the daemon accepted the caller's credentials.
pub open spec fn auth_check_of(r: Result<BackendStatusV, FunnelErrorV>) -> CheckResultV {
    match r {
        Ok(_) => CheckResultV {
            name: "LocalAPI auth"@,
            passed: true,
            message: "Password accepted"@,
            error_code: None,
        },
        Err(e) => if e is Permission {
            CheckResultV {
                name: "LocalAPI auth"@,
                passed: false,
                message: "Invalid LocalAPI password"@,
                error_code: Some(11),
            }
        } else {
            CheckResultV {
                name: "LocalAPI auth"@,
                passed: false,
                message: "Cannot check (tailscaled unreachable)"@,
                error_code: Some(10),
            }
        },
    }
}

/// The version check: known and at least 1.50.0.
pub open spec fn version_check_of(s: BackendStatusV) -> CheckResultV {
    match s.version {
        Some(v) => if version_supported_spec(v) {
            CheckResultV {
                name: "tailscaled version"@,
                passed: true,
                message: "Version "@ + v + " (>= 1.50.0)"@,
                error_code: None,
            }
        } else {
            CheckResultV {
                name: "tailscaled version"@,
                passed: false,
                message: "tailscaled too old (got "@ + v + ", need 1.50.0+)"@,
                error_code: Some(16),
            }
        },
        None => CheckResultV {
            name: "tailscaled version"@,
            passed: false,
            message: "Version unknown"@,
            error_code: Some(16),
        },
    }
}

/// The permission check: the serving configuration could be read.
pub open spec fn permissions_check_of(s: BackendStatusV) -> CheckResultV {
    match s.permissions_ok {
        Some(true) => CheckResultV {
            name: "Permissions"@,
            passed: true,
            message: "Can read/write ServeConfig"@,
            error_code: None,
        },
        Some(false) => CheckResultV {
            name: "Permissions"@,
            passed: false,
            message: "Permission denied — need root or operator group"@,
            error_code: Some(11),
        },
        None => CheckResultV {
            name: "Permissions"@,
            passed: false,
            message: "Permission check unavailable"@,
            error_code: Some(11),
        },
    }
}

/// The HTTPS check: the node has a certificate.
pub open spec fn https_check_of(s: BackendStatusV) -> CheckResultV {
    if s.https_enabled == Some(true) {
        CheckResultV {
            name: "HTTPS enabled"@,
            passed: true,
            message: "Node has HTTPS cert"@,
            error_code: None,
        }
    } else {
        CheckResultV {
            name: "HTTPS enabled"@,
            passed: false,
            message: "HTTPS not enabled. Run `tailscale cert`"@,
            error_code: Some(12),
        }
    }
}

/// The funnel check: tailnet policy allows funnel.
pub open spec fn funnel_check_of(s: BackendStatusV) -> CheckResultV {
    if s.funnel_enabled == Some(true) {
        CheckResultV {
            name: "Funnel capability"@,
            passed: true,
            message: "Tailnet allows Funnel"@,
            error_code: None,
        }
    } else {
        CheckResultV {
            name: "Funnel capability"@,
            passed: false,
            message: "Funnel not enabled in tailnet policy"@,
            error_code: Some(12),
        }
    }
}

/// The DNS check: the node has been assigned a name.
pub open spec fn dns_check_of(s: BackendStatusV) -> CheckResultV {
    match s.dns_name {
        Some(name) => CheckResultV {
            name: "DNS name available"@,
            passed: true,
            message: "Node name: "@ + name,
            error_code: None,
        },
        None => CheckResultV {
            name: "DNS name available"@,
            passed: false,
            message: "Node not yet assigned DNS name"@,
            error_code: Some(12),
        },
    }
}

/// Evaluates daemon reachability from the status fetch's outcome.
pub fn check_tailscaled_reachable(status: &Result<BackendStatus, FunnelError>) -> (r: CheckResult)
    ensures
        r@ == reachable_check_of(result_view(status)),
{
    let ok = match status {
        Ok(_) => true,
        Err(FunnelError::Permission { .. }) => true,
        Err(_) => false,
    };
    if ok {
        CheckResult {
            name: "tailscaled reachable".to_owned(),
            passed: true,
            message: "Socket exists and responds".to_owned(),
            error_code: None,
        }
    } else {
        CheckResult {
            name: "tailscaled reachable".to_owned(),
            passed: false,
            message: "tailscaled not running".to_owned(),
            error_code: Some(10),
        }
    }
}

/// The view of a status fetch's outcome.
pub open spec fn result_view(r: &Result<BackendStatus, FunnelError>) -> Result<
    BackendStatusV,
    FunnelErrorV,
> {
    match r {
        Ok(s) => Ok(s@),
        Err(e) => Err(e@),
    }
}

/// Evaluates credential acceptance from the status fetch's outcome.
pub fn check_localapi_auth(status: &Result<BackendStatus, FunnelError>) -> (r: CheckResult)
    ensures
        r@ == auth_check_of(result_view(status)),
{
    match status {
        Ok(_) => CheckResult {
            name: "LocalAPI auth".to_owned(),
            passed: true,
            message: "Password accepted".to_owned(),
            error_code: None,
        },
        Err(FunnelError::Permission { .. }) => CheckResult {
            name: "LocalAPI auth".to_owned(),
            passed: false,
            message: "Invalid LocalAPI password".to_owned(),
            error_code: Some(11),
        },
        Err(_) => CheckResult {
            name: "LocalAPI auth".to_owned(),
            passed: false,
            message: "Cannot check (tailscaled unreachable)".to_owned(),
            error_code: Some(10),
        },
    }
}

/// Evaluates the version requirement.
pub fn check_version(status: &BackendStatus) -> (r: CheckResult)
    ensures
        r@ == version_check_of(status@),
{
    match &status.version {
        Some(version) => {
            if version_supported(version.as_str()) {
                let mut message = "Version ".to_owned();
                message.append(version.as_str());
                message.append(" (>= 1.50.0)");
                CheckResult {
                    name: "tailscaled version".to_owned(),
                    passed: true,
                    message,
                    error_code: None,
                }
            } else {
                let mut message = "tailscaled too old (got ".to_owned();
                message.append(version.as_str());
                message.append(", need 1.50.0+)");
                CheckResult {
                    name: "tailscaled version".to_owned(),
                    passed: false,
                    message,
                    error_code: Some(16),
                }
            }
        },
        None => CheckResult {
            name: "tailscaled version".to_owned(),
            passed: false,
            message: "Version unknown".to_owned(),
            error_code: Some(16),
        },
    }
}

/// Evaluates whether the serving configuration was readable.
pub fn check_permissions(status: &BackendStatus) -> (r: CheckResult)
    ensures
        r@ == permissions_check_of(status@),
{
    match status.permissions_ok {
        Some(true) => CheckResult {
            name: "Permissions".to_owned(),
            passed: true,
            message: "Can read/write ServeConfig".to_owned(),
            error_code: None,
        },
        Some(false) => CheckResult {
            name: "Permissions".to_owned(),
            passed: false,
            message: "Permission denied — need root or operator group".to_owned(),
            error_code: Some(11),
        },
        None => CheckResult {
            name: "Permissions".to_owned(),
            passed: false,
            message: "Permission check unavailable".to_owned(),
            error_code: Some(11),
        },
    }
}

/// Evaluates the HTTPS certificate prerequisite.
pub fn check_https_enabled(status: &BackendStatus) -> (r: CheckResult)
    ensures
        r@ == https_check_of(status@),
{
    if status.https_enabled == Some(true) {
        CheckResult {
            name: "HTTPS enabled".to_owned(),
            passed: true,
            message: "Node has HTTPS cert".to_owned(),
            error_code: None,
        }
    } else {
        CheckResult {
            name: "HTTPS enabled".to_owned(),
            passed: false,
            message: "HTTPS not enabled. Run `tailscale cert`".to_owned(),
            error_code: Some(12),
        }
    }
}

/// Evaluates the funnel-policy prerequisite.
pub fn check_funnel_capability(status: &BackendStatus) -> (r: CheckResult)
    ensures
        r@ == funnel_check_of(status@),
{
    if status.funnel_enabled == Some(true) {
        CheckResult {
            name: "Funnel capability".to_owned(),
            passed: true,
            message: "Tailnet allows Funnel".to_owned(),
            error_code: None,
        }
    } else {
        CheckResult {
            name: "Funnel capability".to_owned(),
            passed: false,
            message: "Funnel not enabled in tailnet policy".to_owned(),
            error_code: Some(12),
        }
    }
}

/// Evaluates the DNS-name prerequisite.
pub fn check_dns_name(status: &BackendStatus) -> (r: CheckResult)
    ensures
        r@ == dns_check_of(status@),
{
    match &status.dns_name {
        Some(name) => {
            let mut message = "Node name: ".to_owned();
            message.append(name.as_str());
            CheckResult {
                name: "DNS name available".to_owned(),
                passed: true,
                message,
                error_code: None,
            }
        },
        None => CheckResult {
            name: "DNS name available".to_owned(),
            passed: false,
            message: "Node not yet assigned DNS name".to_owned(),
            error_code: Some(12),
        },
    }
}

/// Whether some failed check carries this exit code.
pub open spec fn has_failing_code(cs: Seq<CheckResultV>, code: i32) -> bool {
    exists|i: int| 0 <= i < cs.len() && !(#[trigger] cs[i]).passed && cs[i].error_code == Some(code)
}

/// The exit code of the report: the first, in severity order, carried by a
/// failed check; zero when everything passed.
pub open spec fn select_exit_code_spec(cs: Seq<CheckResultV>) -> i32 {
    if has_failing_code(cs, 10) {
        10
    } else if has_failing_code(cs, 11) {
        11
    } else if has_failing_code(cs, 16) {
        16
    } else if has_failing_code(cs, 12) {
        12
    } else if has_failing_code(cs, 13) {
        13
    } else if has_failing_code(cs, 14) {
        14
    } else if has_failing_code(cs, 15) {
        15
    } else if has_failing_code(cs, 2) {
        2
    } else if has_failing_code(cs, 1) {
        1
    } else {
        0
    }
}

fn any_failing(checks: &Vec<CheckResult>, code: i32) -> (r: bool)
    ensures
        r == has_failing_code(checks_view(checks@), code),
{
    let ghost cs = checks_view(checks@);
    let mut i: usize = 0;
    while i < checks.len()
        invariant
            i <= checks@.len(),
            forall|j: int|
                0 <= j < i ==> !(!(#[trigger] cs[j]).passed && cs[j].error_code == Some(code)),
        decreases checks@.len() - i,
    {
        proof {
            assert(cs[i as int] == checks@[i as int]@);
        }
        let failing = !checks[i].passed && match checks[i].error_code {
            Some(c) => c == code,
            None => false,
        };
        if failing {
            return true;
        }
        i += 1;
    }
    false
}

/// Picks the report's exit code from the failed checks, in severity order.
pub fn select_exit_code(checks: &Vec<CheckResult>) -> (r: i32)
    ensures
        r == select_exit_code_spec(checks_view(checks@)),
{
    if any_failing(checks, 10) {
        return 10;
    }
    if any_failing(checks, 11) {
        return 11;
    }
    if any_failing(checks, 16) {
        return 16;
    }
    if any_failing(checks, 12) {
        return 12;
    }
    if any_failing(checks, 13) {
        return 13;
    }
    if any_failing(checks, 14) {
        return 14;
    }
    if any_failing(checks, 15) {
        return 15;
    }
    if any_failing(checks, 2) {
        return 2;
    }
    if any_failing(checks, 1) {
        return 1;
    }
    0
}

/// One of the five placeholder lines shown when no status is available.
pub open spec fn blocked_check_of(name: Seq<char>, message: Seq<char>, code: i32) -> CheckResultV {
    CheckResultV { name, passed: false, message, error_code: Some(code) }
}

/// The whole report for a status outcome: reachability, credential
/// acceptance when a TCP endpoint is in use, then — given a status — the
/// version, permission, HTTPS, funnel and DNS checks; without one, five
/// fixed failures naming the cause (permission denied or unreachable).
pub open spec fn doctor_checks_of(r: Result<BackendStatusV, FunnelErrorV>, tcp_mode: bool) -> Seq<
    CheckResultV,
> {
    let head = if tcp_mode {
        seq![reachable_check_of(r), auth_check_of(r)]
    } else {
        seq![reachable_check_of(r)]
    };
    let tail = match r {
        Ok(s) => seq![
            version_check_of(s),
            permissions_check_of(s),
            https_check_of(s),
            funnel_check_of(s),
            dns_check_of(s),
        ],
        Err(e) => if e is Permission {
            seq![
                blocked_check_of(
                    "tailscaled version"@,
                    "Cannot check version (permission denied)"@,
                    11,
                ),
                blocked_check_of(
                    "Permissions"@,
                    "Permission denied — need root or operator group"@,
                    11,
                ),
                blocked_check_of("HTTPS enabled"@, "Cannot check HTTPS (permission denied)"@, 11),
                blocked_check_of(
                    "Funnel capability"@,
                    "Cannot check Funnel capability (permission denied)"@,
                    11,
                ),
                blocked_check_of(
                    "DNS name available"@,
                    "Cannot check DNS name (permission denied)"@,
                    11,
                ),
            ]
        } else {
            seq![
                blocked_check_of(
                    "tailscaled version"@,
                    "Cannot check version (tailscaled unreachable)"@,
                    10,
                ),
                blocked_check_of(
                    "Permissions"@,
                    "Cannot check permissions (tailscaled unreachable)"@,
                    10,
                ),
                blocked_check_of(
                    "HTTPS enabled"@,
                    "Cannot check HTTPS (tailscaled unreachable)"@,
                    10,
                ),
                blocked_check_of(
                    "Funnel capability"@,
                    "Cannot check Funnel capability (tailscaled unreachable)"@,
                    10,
                ),
                blocked_check_of(
                    "DNS name available"@,
                    "Cannot check DNS name (tailscaled unreachable)"@,
                    10,
                ),
            ]
        },
    };
    head + tail
}

fn push_blocked(checks: &mut Vec<CheckResult>, name: &str, message: &str, code: i32)
    ensures
        checks_view(final(checks)@) == checks_view(old(checks)@).push(
            blocked_check_of(name@, message@, code),
        ),
{
    checks.push(
        CheckResult {
            name: name.to_owned(),
            passed: false,
            message: message.to_owned(),
            error_code: Some(code),
        },
    );
    proof {
        assert(checks_view(checks@) =~= checks_view(old(checks)@).push(
            blocked_check_of(name@, message@, code),
        ));
    }
}

/// The diagnosis command: evaluates the report from a status outcome.
pub struct DoctorCommand;

/// The diagnosis command's inputs.
#[derive(Debug, Clone, PartialEq, Eq)]
pub struct DoctorArgs {
    pub socket: Option<String>,
    pub localapi_port: Option<u16>,
    pub localapi_password_file: Option<String>,
}

impl DoctorCommand {
    /// Builds the whole report for a status outcome.
    pub fn evaluate(status_result: &Result<BackendStatus, FunnelError>, tcp_mode: bool) -> (r: Vec<
        CheckResult,
    >)
        ensures
            checks_view(r@) == doctor_checks_of(result_view(status_result), tcp_mode),
    {
        let ghost rv = result_view(status_result);
        let mut checks: Vec<CheckResult> = Vec::new();
        proof {
            assert(checks_view(checks@) =~= Seq::<CheckResultV>::empty());
        }
        let c0 = check_tailscaled_reachable(status_result);
        checks.push(c0);
        proof {
            assert(checks_view(checks@) =~= seq![reachable_check_of(rv)]);
        }
        if tcp_mode {
            let c1 = check_localapi_auth(status_result);
            checks.push(c1);
            proof {
                assert(checks_view(checks@) =~= seq![reachable_check_of(rv), auth_check_of(rv)]);
            }
        }
        let ghost head = checks_view(checks@);
        match status_result {
            Ok(status) => {
                let c = check_version(status);
                checks.push(c);
                let c = check_permissions(status);
                checks.push(c);
                let c = check_https_enabled(status);
                checks.push(c);
                let c = check_funnel_capability(status);
                checks.push(c);
                let c = check_dns_name(status);
                checks.push(c);
                proof {
                    assert(checks_view(checks@) =~= doctor_checks_of(rv, tcp_mode));
                }
            },
            Err(FunnelError::Permission { .. }) => {
                push_blocked(
                    &mut checks,
                    "tailscaled version",
                    "Cannot check version (permission denied)",
                    11,
                );
                push_blocked(
                    &mut checks,
                    "Permissions",
                    "Permission denied — need root or operator group",
                    11,
                );
                push_blocked(
                    &mut checks,
                    "HTTPS enabled",
                    "Cannot check HTTPS (permission denied)",
                    11,
                );
                push_blocked(
                    &mut checks,
                    "Funnel capability",
                    "Cannot check Funnel capability (permission denied)",
                    11,
                );
                push_blocked(
                    &mut checks,
                    "DNS name available",
                    "Cannot check DNS name (permission denied)",
                    11,
                );
                proof {
                    assert(checks_view(checks@) =~= doctor_checks_of(rv, tcp_mode));
                }
            },
            Err(_) => {
                push_blocked(
                    &mut checks,
                    "tailscaled version",
                    "Cannot check version (tailscaled unreachable)",
                    10,
                );
                push_blocked(
                    &mut checks,
                    "Permissions",
                    "Cannot check permissions (tailscaled unreachable)",
                    10,
                );
                push_blocked(
                    &mut checks,
                    "HTTPS enabled",
                    "Cannot check HTTPS (tailscaled unreachable)",
                    10,
                );
                push_blocked(
                    &mut checks,
                    "Funnel capability",
                    "Cannot check Funnel capability (tailscaled unreachable)",
                    10,
                );
                push_blocked(
                    &mut checks,
                    "DNS name available",
                    "Cannot check DNS name (tailscaled unreachable)",
                    10,
                );
                proof {
                    assert(checks_view(checks@) =~= doctor_checks_of(rv, tcp_mode));
                }
            },
        }
        checks
    }
}

} // verus!
