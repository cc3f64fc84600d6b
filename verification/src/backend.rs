//! Stand-in backends and the commands that are not yet wired: a mock that
//! reports a healthy daemon, a backend for an endpoint that could not be
//! reached, and the placeholder close and status commands.
use crate::error::FunnelError;
use crate::error::FunnelErrorV;
use crate::status::BackendStatus;
use crate::status::BackendStatusV;
use crate::tunnel::TunnelResult;
use crate::tunnel::TunnelSpec;
use vstd::prelude::*;

verus! {

/// A backend that accepts nothing and reports a healthy daemon.
pub struct MockBackend;

impl MockBackend {
    /// Applying is not implemented.
    pub fn apply(&self, _spec: &TunnelSpec) -> (r: Result<TunnelResult, FunnelError>)
        ensures
            r matches Err(e) && e@ == FunnelErrorV::Other("MockBackend not implemented"@),
    {
        Err(FunnelError::Other("MockBackend not implemented".to_owned()))
    }

    /// Removing is not implemented.
    pub fn remove(&self, _lease_id: &str) -> (r: Result<(), FunnelError>)
        ensures
            r matches Err(e) && e@ == FunnelErrorV::Other("MockBackend not implemented"@),
    {
        Err(FunnelError::Other("MockBackend not implemented".to_owned()))
    }

    /// A fixed healthy status.
    pub fn status(&self) -> (r: Result<BackendStatus, FunnelError>)
        ensures
            r matches Ok(s) && s@ == (BackendStatusV {
                dns_name: Some("mock-node"@),
                version: Some("1.50.0"@),
                https_enabled: Some(true),
                funnel_enabled: Some(true),
                permissions_ok: Some(true),
            }),
    {
        Ok(
            BackendStatus {
                dns_name: Some("mock-node".to_owned()),
                version: Some("1.50.0".to_owned()),
                https_enabled: Some(true),
                funnel_enabled: Some(true),
                permissions_ok: Some(true),
            },
        )
    }
}

/// A backend for a daemon endpoint that could not be reached: every
/// operation fails with the recorded context.
pub struct UnreachableBackend {
    pub context: String,
}

impl UnreachableBackend {
    pub fn new(context: String) -> (r: Self)
        ensures
            r.context@ == context@,
    {
        Self { context }
    }

    /// Applying fails: the daemon is unreachable.
    pub fn apply(&self, _spec: &TunnelSpec) -> (r: Result<TunnelResult, FunnelError>)
        ensures
            r matches Err(e) && e@ == (FunnelErrorV::Unreachable { context: self.context@ }),
    {
        Err(FunnelError::Unreachable { context: self.context.clone() })
    }

    /// Removing fails: the daemon is unreachable.
    pub fn remove(&self, _lease_id: &str) -> (r: Result<(), FunnelError>)
        ensures
            r matches Err(e) && e@ == (FunnelErrorV::Unreachable { context: self.context@ }),
    {
        Err(FunnelError::Unreachable { context: self.context.clone() })
    }

    /// The status fails: the daemon is unreachable.
    pub fn status(&self) -> (r: Result<BackendStatus, FunnelError>)
        ensures
            r matches Err(e) && e@ == (FunnelErrorV::Unreachable { context: self.context@ }),
    {
        Err(FunnelError::Unreachable { context: self.context.clone() })
    }
}

/// The close command, not yet wired: leases are foreground sessions only.
pub struct CloseCommand;

impl CloseCommand {
    /// Always the not-implemented error.
    pub fn run() -> (r: Result<(), FunnelError>)
        ensures
            r matches Err(e) && e@ == FunnelErrorV::Other(
                "close command not yet implemented (MVP uses foreground sessions only)"@,
            ),
    {
        Err(
            FunnelError::Other(
                "close command not yet implemented (MVP uses foreground sessions only)".to_owned(),
            ),
        )
    }
}

/// The status command, not yet wired.
pub struct StatusCommand;

impl StatusCommand {
    /// Always the not-implemented error.
    pub fn run() -> (r: Result<(), FunnelError>)
        ensures
            r matches Err(e) && e@ == FunnelErrorV::Other(
                "status command not yet implemented (Phase 2 feature)"@,
            ),
    {
        Err(FunnelError::Other("status command not yet implemented (Phase 2 feature)".to_owned()))
    }
}

/// How a serve-config read's outcome settles the permission flag: success
/// means readable, a refused or unauthorized status means not, anything else
/// leaves it unknown.
pub fn interpret_permissions(outcome: &Result<(), crate::error::LocalApiError>) -> (r: Option<bool>)
    ensures
        match outcome {
            Ok(()) => r == Some(true),
            Err(e) => match e@ {
                crate::error::LocalApiErrorV::HttpStatus { status, .. } => if status == 401
                    || status == 403 {
                    r == Some(false)
                } else {
                    r is None
                },
                _ => r is None,
            },
        },
{
    match outcome {
        Ok(()) => Some(true),
        Err(crate::error::LocalApiError::HttpStatus { status, .. }) => {
            if *status == 401 || *status == 403 {
                Some(false)
            } else {
                None
            }
        },
        Err(_) => None,
    }
}

} // verus!
