//! The domain error taxonomy, its exit codes and rendered texts, and the
//! single translation point from transport errors into it.
use vstd::prelude::*;
use vstd::string::StringExecFns;

verus! {

/// View of a `FunnelError`.
#[verifier::ext_equal]
pub enum FunnelErrorV {
    Unreachable { context: Seq<char> },
    Permission { context: Seq<char> },
    Prerequisites { context: Seq<char> },
    Conflict { context: Seq<char> },
    ApplyFailed { context: Seq<char> },
    TargetPortInaccessible { context: Seq<char> },
    VersionTooOld { context: Seq<char> },
    InvalidArgument(Seq<char>),
    Other(Seq<char>),
}

/// An error of the tool's taxonomy: connectivity, authorization,
/// prerequisite-not-met, conflict, concurrent-modification (surfaced as a
/// failed apply), inaccessible target, too-old daemon, invalid input, or
/// anything else. Each carries a context string.
#[derive(Debug, PartialEq, Eq)]
pub enum FunnelError {
    Unreachable { context: String },
    Permission { context: String },
    Prerequisites { context: String },
    Conflict { context: String },
    ApplyFailed { context: String },
    TargetPortInaccessible { context: String },
    VersionTooOld { context: String },
    InvalidArgument(String),
    Other(String),
}

impl View for FunnelError {
    type V = FunnelErrorV;

    open spec fn view(&self) -> FunnelErrorV {
        match self {
            FunnelError::Unreachable { context } => FunnelErrorV::Unreachable {
                context: context@,
            },
            FunnelError::Permission { context } => FunnelErrorV::Permission { context: context@ },
            FunnelError::Prerequisites { context } => FunnelErrorV::Prerequisites {
                context: context@,
            },
            FunnelError::Conflict { context } => FunnelErrorV::Conflict { context: context@ },
            FunnelError::ApplyFailed { context } => FunnelErrorV::ApplyFailed {
                context: context@,
            },
            FunnelError::TargetPortInaccessible { context } => {
                FunnelErrorV::TargetPortInaccessible { context: context@ }
            },
            FunnelError::VersionTooOld { context } => FunnelErrorV::VersionTooOld {
                context: context@,
            },
            FunnelError::InvalidArgument(m) => FunnelErrorV::InvalidArgument(m@),
            FunnelError::Other(m) => FunnelErrorV::Other(m@),
        }
    }
}

/// The process exit code assigned to each error kind.
pub open spec fn exit_code_spec(e: FunnelErrorV) -> i32 {
    match e {
        FunnelErrorV::Unreachable { .. } => 10,
        FunnelErrorV::Permission { .. } => 11,
        FunnelErrorV::Prerequisites { .. } => 12,
        FunnelErrorV::Conflict { .. } => 13,
        FunnelErrorV::ApplyFailed { .. } => 14,
        FunnelErrorV::TargetPortInaccessible { .. } => 15,
        FunnelErrorV::VersionTooOld { .. } => 16,
        FunnelErrorV::InvalidArgument(_) => 2,
        FunnelErrorV::Other(_) => 1,
    }
}

/// The headline text of each error kind.
pub open spec fn error_message(e: FunnelErrorV) -> Seq<char> {
    match e {
        FunnelErrorV::Unreachable { .. } => "LocalAPI unreachable"@,
        FunnelErrorV::Permission { .. } => "Permission denied"@,
        FunnelErrorV::Prerequisites { .. } => "Prerequisites not met"@,
        FunnelErrorV::Conflict { .. } => "Configuration conflict"@,
        FunnelErrorV::ApplyFailed { .. } => "Apply operation failed"@,
        FunnelErrorV::TargetPortInaccessible { .. } => "Target port inaccessible"@,
        FunnelErrorV::VersionTooOld { .. } => "Version too old"@,
        FunnelErrorV::InvalidArgument(m) => "Invalid argument: "@ + m,
        FunnelErrorV::Other(m) => m,
    }
}

/// The cause shown under an error: its context string.
pub open spec fn cause_of(e: FunnelErrorV) -> Option<Seq<char>> {
    match e {
        FunnelErrorV::Unreachable { context } => Some(context),
        FunnelErrorV::Permission { context } => Some(context),
        FunnelErrorV::Prerequisites { context } => Some(context),
        FunnelErrorV::Conflict { context } => Some(context),
        FunnelErrorV::ApplyFailed { context } => Some(context),
        FunnelErrorV::TargetPortInaccessible { context } => Some(context),
        FunnelErrorV::VersionTooOld { context } => Some(context),
        FunnelErrorV::InvalidArgument(m) => Some(m),
        FunnelErrorV::Other(m) => Some(m),
    }
}

/// The suggested fix shown under an error, where one is known.
pub open spec fn fix_of(e: FunnelErrorV) -> Option<Seq<char>> {
    match e {
        FunnelErrorV::Unreachable { .. } => Some(
            "Is tailscaled running? Try: sudo systemctl start tailscaled"@,
        ),
        FunnelErrorV::Permission { .. } => Some(
            "Run with sudo or add your user to the operator group"@,
        ),
        FunnelErrorV::Prerequisites { .. } => Some("Run 'funnelctl doctor' to diagnose the issue"@),
        FunnelErrorV::Conflict { .. } => Some(
            "Use a different --path or add --force to override"@,
        ),
        FunnelErrorV::ApplyFailed { .. } => Some(
            "Check tailscaled logs for more details. Route may still exist; run `tailscale serve off` to clean up."@,
        ),
        FunnelErrorV::TargetPortInaccessible { .. } => Some(
            "Start your service before running funnelctl"@,
        ),
        FunnelErrorV::VersionTooOld { .. } => Some(
            "Upgrade tailscaled. See https://tailscale.com/download"@,
        ),
        FunnelErrorV::InvalidArgument(_) => None,
        FunnelErrorV::Other(_) => None,
    }
}

/// The full rendered error: headline, cause and fix lines, with bold ANSI
/// labels when color is on.
pub open spec fn detailed_text(e: FunnelErrorV, use_color: bool) -> Seq<char> {
    let error_label = if use_color {
        "\u{1b}[1;31mError:\u{1b}[0m"@
    } else {
        "Error:"@
    };
    let cause_label = if use_color {
        "\u{1b}[1;33mCause:\u{1b}[0m"@
    } else {
        "Cause:"@
    };
    let fix_label = if use_color {
        "\u{1b}[1;32mFix:\u{1b}[0m"@
    } else {
        "Fix:"@
    };
    let head = error_label + " "@ + error_message(e);
    let with_cause = match cause_of(e) {
        Some(c) => head + "\n"@ + cause_label + " "@ + c,
        None => head,
    };
    match fix_of(e) {
        Some(f) => with_cause + "\n"@ + fix_label + " "@ + f,
        None => with_cause,
    }
}

impl FunnelError {
    /// The process exit code for this error.
    pub fn exit_code(&self) -> (r: i32)
        ensures
            r == exit_code_spec(self@),
    {
        match self {
            FunnelError::Unreachable { .. } => 10,
            FunnelError::Permission { .. } => 11,
            FunnelError::Prerequisites { .. } => 12,
            FunnelError::Conflict { .. } => 13,
            FunnelError::ApplyFailed { .. } => 14,
            FunnelError::TargetPortInaccessible { .. } => 15,
            FunnelError::VersionTooOld { .. } => 16,
            FunnelError::InvalidArgument(_) => 2,
            FunnelError::Other(_) => 1,
        }
    }

    /// The headline text of this error.
    pub fn message(&self) -> (r: String)
        ensures
            r@ == error_message(self@),
    {
        match self {
            FunnelError::Unreachable { .. } => "LocalAPI unreachable".to_owned(),
            FunnelError::Permission { .. } => "Permission denied".to_owned(),
            FunnelError::Prerequisites { .. } => "Prerequisites not met".to_owned(),
            FunnelError::Conflict { .. } => "Configuration conflict".to_owned(),
            FunnelError::ApplyFailed { .. } => "Apply operation failed".to_owned(),
            FunnelError::TargetPortInaccessible { .. } => "Target port inaccessible".to_owned(),
            FunnelError::VersionTooOld { .. } => "Version too old".to_owned(),
            FunnelError::InvalidArgument(m) => {
                let mut s = "Invalid argument: ".to_owned();
                s.append(m.as_str());
                s
            },
            FunnelError::Other(m) => m.clone(),
        }
    }

    /// The cause and suggested fix shown to the user.
    pub fn get_cause_and_fix(&self) -> (r: (Option<String>, Option<String>))
        ensures
            match r.0 {
                Some(c) => cause_of(self@) == Some(c@),
                None => cause_of(self@) is None,
            },
            match r.1 {
                Some(f) => fix_of(self@) == Some(f@),
                None => fix_of(self@) is None,
            },
    {
        match self {
            FunnelError::Unreachable { context } => (
                Some(context.clone()),
                Some("Is tailscaled running? Try: sudo systemctl start tailscaled".to_owned()),
            ),
            FunnelError::Permission { context } => (
                Some(context.clone()),
                Some("Run with sudo or add your user to the operator group".to_owned()),
            ),
            FunnelError::Prerequisites { context } => (
                Some(context.clone()),
                Some("Run 'funnelctl doctor' to diagnose the issue".to_owned()),
            ),
            FunnelError::Conflict { context } => (
                Some(context.clone()),
                Some("Use a different --path or add --force to override".to_owned()),
            ),
            FunnelError::ApplyFailed { context } => (
                Some(context.clone()),
                Some(
                    "Check tailscaled logs for more details. Route may still exist; run `tailscale serve off` to clean up.".to_owned(),
                ),
            ),
            FunnelError::TargetPortInaccessible { context } => (
                Some(context.clone()),
                Some("Start your service before running funnelctl".to_owned()),
            ),
            FunnelError::VersionTooOld { context } => (
                Some(context.clone()),
                Some("Upgrade tailscaled. See https://tailscale.com/download".to_owned()),
            ),
            FunnelError::InvalidArgument(m) => (Some(m.clone()), None),
            FunnelError::Other(m) => (Some(m.clone()), None),
        }
    }

    /// The suggested fix alone.
    pub fn get_fix(&self) -> (r: Option<String>)
        ensures
            match r {
                Some(f) => fix_of(self@) == Some(f@),
                None => fix_of(self@) is None,
            },
    {
        let (_, fix) = self.get_cause_and_fix();
        fix
    }

    /// Renders the error with its cause and fix, optionally colored.
    pub fn format_detailed(&self, use_color: bool) -> (r: String)
        ensures
            r@ == detailed_text(self@, use_color),
    {
        let error_label: &str = if use_color {
            "\u{1b}[1;31mError:\u{1b}[0m"
        } else {
            "Error:"
        };
        let cause_label: &str = if use_color {
            "\u{1b}[1;33mCause:\u{1b}[0m"
        } else {
            "Cause:"
        };
        let fix_label: &str = if use_color {
            "\u{1b}[1;32mFix:\u{1b}[0m"
        } else {
            "Fix:"
        };
        let (cause, fix) = self.get_cause_and_fix();
        let mut output = error_label.to_owned();
        output.append(" ");
        let msg = self.message();
        output.append(msg.as_str());
        match cause {
            Some(cause_text) => {
                output.append("\n");
                output.append(cause_label);
                output.append(" ");
                output.append(cause_text.as_str());
            },
            None => {},
        }
        match fix {
            Some(fix_text) => {
                output.append("\n");
                output.append(fix_label);
                output.append(" ");
                output.append(fix_text.as_str());
            },
            None => {},
        }
        output
    }
}

/// View of a `LocalApiError`.
#[verifier::ext_equal]
pub enum LocalApiErrorV {
    InvalidUri(Seq<char>),
    Http(Seq<char>),
    Hyper(Seq<char>),
    Io(Seq<char>),
    Json(Seq<char>),
    PasswordPermissions { path: Seq<char>, mode: u32 },
    PasswordRead { path: Seq<char>, source: Seq<char> },
    EmptyPasswordFile { path: Seq<char> },
    InvalidHeaderValue { name: Seq<char> },
    HttpStatus { status: u16, method: Seq<char>, path: Seq<char>, body: Seq<char> },
    MissingSessionId,
}

/// A transport- or protocol-level failure, modeled with plain values: the
/// carried texts are the peer errors' messages, and a status is its code.
#[derive(Debug, PartialEq, Eq)]
pub enum LocalApiError {
    InvalidUri(String),
    Http(String),
    Hyper(String),
    Io(String),
    Json(String),
    PasswordPermissions { path: String, mode: u32 },
    PasswordRead { path: String, source: String },
    EmptyPasswordFile { path: String },
    InvalidHeaderValue { name: String },
    HttpStatus { status: u16, method: String, path: String, body: String },
    MissingSessionId,
}

impl View for LocalApiError {
    type V = LocalApiErrorV;

    open spec fn view(&self) -> LocalApiErrorV {
        match self {
            LocalApiError::InvalidUri(m) => LocalApiErrorV::InvalidUri(m@),
            LocalApiError::Http(m) => LocalApiErrorV::Http(m@),
            LocalApiError::Hyper(m) => LocalApiErrorV::Hyper(m@),
            LocalApiError::Io(m) => LocalApiErrorV::Io(m@),
            LocalApiError::Json(m) => LocalApiErrorV::Json(m@),
            LocalApiError::PasswordPermissions { path, mode } => {
                LocalApiErrorV::PasswordPermissions { path: path@, mode: *mode }
            },
            LocalApiError::PasswordRead { path, source } => LocalApiErrorV::PasswordRead {
                path: path@,
                source: source@,
            },
            LocalApiError::EmptyPasswordFile { path } => LocalApiErrorV::EmptyPasswordFile {
                path: path@,
            },
            LocalApiError::InvalidHeaderValue { name } => LocalApiErrorV::InvalidHeaderValue {
                name: name@,
            },
            LocalApiError::HttpStatus { status, method, path, body } => {
                LocalApiErrorV::HttpStatus { status: *status, method: method@, path: path@, body: body@ }
            },
            LocalApiError::MissingSessionId => LocalApiErrorV::MissingSessionId,
        }
    }
}

/// How each transport error lands in the domain taxonomy. An unauthorized or
/// forbidden status is a permission error, a missing endpoint means the
/// daemon is too old, and any other unexpected status is a failed apply.
pub open spec fn map_transport_error_spec(e: LocalApiErrorV) -> FunnelErrorV {
    match e {
        LocalApiErrorV::HttpStatus { status, method, path, body } => {
            if status == 401 || status == 403 {
                FunnelErrorV::Permission {
                    context: "LocalAPI auth rejected for "@ + method + " "@ + path,
                }
            } else if status == 404 {
                FunnelErrorV::VersionTooOld {
                    context: "LocalAPI endpoint "@ + method + " "@ + path + " not found"@,
                }
            } else {
                FunnelErrorV::ApplyFailed {
                    context: "LocalAPI "@ + method + " "@ + path + " failed: "@ + body,
                }
            }
        },
        LocalApiErrorV::PasswordPermissions { path, mode } => FunnelErrorV::InvalidArgument(
            "LocalAPI password file "@ + path + " must be 0600 (got "@ + crate::strutil::oct3_digits(
                mode as nat,
            ) + ")"@,
        ),
        LocalApiErrorV::PasswordRead { path, source } => FunnelErrorV::InvalidArgument(
            "LocalAPI password file "@ + path + " could not be read: "@ + source,
        ),
        LocalApiErrorV::EmptyPasswordFile { path } => FunnelErrorV::InvalidArgument(
            "LocalAPI password file "@ + path + " is empty"@,
        ),
        LocalApiErrorV::MissingSessionId => FunnelErrorV::ApplyFailed {
            context: "watch-ipn-bus did not provide a session id"@,
        },
        LocalApiErrorV::Io(_) => FunnelErrorV::Unreachable { context: "LocalAPI unreachable"@ },
        LocalApiErrorV::InvalidUri(_) => FunnelErrorV::ApplyFailed {
            context: "Invalid LocalAPI URI"@,
        },
        LocalApiErrorV::Http(_) => FunnelErrorV::ApplyFailed {
            context: "LocalAPI request failed"@,
        },
        LocalApiErrorV::Hyper(_) => FunnelErrorV::ApplyFailed {
            context: "LocalAPI response error"@,
        },
        LocalApiErrorV::Json(_) => FunnelErrorV::ApplyFailed {
            context: "Failed to parse LocalAPI JSON"@,
        },
        LocalApiErrorV::InvalidHeaderValue { name } => FunnelErrorV::ApplyFailed {
            context: "Invalid header value for "@ + name,
        },
    }
}

/// Translates a transport error into the domain taxonomy. This is the single
/// point where raw transport errors are categorized.
pub fn map_transport_error(err: LocalApiError) -> (r: FunnelError)
    ensures
        r@ == map_transport_error_spec(err@),
{
    match err {
        LocalApiError::HttpStatus { status, method, path, body } => {
            if status == 401 || status == 403 {
                let mut context = "LocalAPI auth rejected for ".to_owned();
                context.append(method.as_str());
                context.append(" ");
                context.append(path.as_str());
                FunnelError::Permission { context }
            } else if status == 404 {
                let mut context = "LocalAPI endpoint ".to_owned();
                context.append(method.as_str());
                context.append(" ");
                context.append(path.as_str());
                context.append(" not found");
                FunnelError::VersionTooOld { context }
            } else {
                let mut context = "LocalAPI ".to_owned();
                context.append(method.as_str());
                context.append(" ");
                context.append(path.as_str());
                context.append(" failed: ");
                context.append(body.as_str());
                FunnelError::ApplyFailed { context }
            }
        },
        LocalApiError::PasswordPermissions { path, mode } => {
            let mut m = "LocalAPI password file ".to_owned();
            m.append(path.as_str());
            m.append(" must be 0600 (got ");
            let oct = crate::strutil::oct3_to_string(mode);
            m.append(oct.as_str());
            m.append(")");
            FunnelError::InvalidArgument(m)
        },
        LocalApiError::PasswordRead { path, source } => {
            let mut m = "LocalAPI password file ".to_owned();
            m.append(path.as_str());
            m.append(" could not be read: ");
            m.append(source.as_str());
            FunnelError::InvalidArgument(m)
        },
        LocalApiError::EmptyPasswordFile { path } => {
            let mut m = "LocalAPI password file ".to_owned();
            m.append(path.as_str());
            m.append(" is empty");
            FunnelError::InvalidArgument(m)
        },
        LocalApiError::MissingSessionId => FunnelError::ApplyFailed {
            context: "watch-ipn-bus did not provide a session id".to_owned(),
        },
        LocalApiError::Io(_) => FunnelError::Unreachable {
            context: "LocalAPI unreachable".to_owned(),
        },
        LocalApiError::InvalidUri(_) => FunnelError::ApplyFailed {
            context: "Invalid LocalAPI URI".to_owned(),
        },
        LocalApiError::Http(_) => FunnelError::ApplyFailed {
            context: "LocalAPI request failed".to_owned(),
        },
        LocalApiError::Hyper(_) => FunnelError::ApplyFailed {
            context: "LocalAPI response error".to_owned(),
        },
        LocalApiError::Json(_) => FunnelError::ApplyFailed {
            context: "Failed to parse LocalAPI JSON".to_owned(),
        },
        LocalApiError::InvalidHeaderValue { name } => {
            let mut context = "Invalid header value for ".to_owned();
            context.append(name.as_str());
            FunnelError::ApplyFailed { context }
        },
    }
}

} // verus!
