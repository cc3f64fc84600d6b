//! The tunnel's data: the local target, the requested tunnel, its result,
//! and the lease the session id becomes.
use crate::strutil::str_contains_char;
use crate::strutil::str_starts_with_char;
use vstd::prelude::*;
use vstd::string::StringExecFns;

verus! {

/// The `url` crate's parsed URL type, opaque here.
#[verifier::external_type_specification]
#[verifier::external_body]
pub struct ExUrl(url::Url);

/// The `url` crate's parse error, opaque here.
#[verifier::external_type_specification]
#[verifier::external_body]
pub struct ExParseError(url::ParseError);

/// Whether `url::Url::parse` accepts a text: a function of the text alone.
pub uninterp spec fn url_parse_ok(s: Seq<char>) -> bool;

/// Relies on `url::Url::parse`: whether parsing succeeds depends on the text
/// alone; nothing is assumed of the parsed value itself.
pub assume_specification [ url::Url::parse ](input: &str) -> (r: Result<url::Url, url::ParseError>)
    ensures
        r is Ok <==> url_parse_ok(input@),
;

/// The caller's local service: a bind address and port.
#[derive(Debug, Clone, PartialEq, Eq)]
pub struct LocalTarget {
    pub bind: String,
    pub port: u16,
}

/// The bind address as written into a URL: a bare IPv6 address (one holding
/// `:` and not already bracketed) is bracketed.
pub open spec fn host_for_url_of(bind: Seq<char>) -> Seq<char> {
    if (exists|i: int| 0 <= i < bind.len() && bind[i] == ':') && !(bind.len() > 0 && bind[0]
        == '[') {
        seq!['['] + bind + seq![']']
    } else {
        bind
    }
}

/// The target's URL text: `http://` + bracketed host + `:` + port.
pub open spec fn target_url_text(bind: Seq<char>, port: u16) -> Seq<char> {
    "http://"@ + host_for_url_of(bind) + ":"@ + crate::strutil::dec_digits(port as nat)
}

impl LocalTarget {
    pub fn new(bind: String, port: u16) -> (r: Self)
        ensures
            r.bind@ == bind@,
            r.port == port,
    {
        Self { bind, port }
    }

    /// The bind address, bracketed when it is a bare IPv6 address.
    pub fn host_for_url(&self) -> (r: String)
        ensures
            r@ == host_for_url_of(self.bind@),
    {
        if str_contains_char(self.bind.as_str(), ':') && !str_starts_with_char(
            self.bind.as_str(),
            '[',
        ) {
            proof {
                reveal_strlit("[");
                reveal_strlit("]");
            }
            let mut s = "[".to_owned();
            s.append(self.bind.as_str());
            s.append("]");
            proof {
                assert(s@ =~= seq!['['] + self.bind@ + seq![']']);
            }
            s
        } else {
            self.bind.clone()
        }
    }

    /// The target's URL text.
    pub fn to_string(&self) -> (r: String)
        ensures
            r@ == target_url_text(self.bind@, self.port),
    {
        let host = self.host_for_url();
        let mut s = "http://".to_owned();
        s.append(host.as_str());
        s.append(":");
        let p = crate::strutil::u16_to_string(self.port);
        s.append(p.as_str());
        proof {
            reveal_strlit(":");
            assert(s@ =~= target_url_text(self.bind@, self.port));
        }
        s
    }

    /// The target as a parsed URL; the `url` crate decides validity, and it
    /// decides by the target's URL text alone.
    pub fn to_url(&self) -> (r: Result<url::Url, url::ParseError>)
        ensures
            r is Ok <==> url_parse_ok(target_url_text(self.bind@, self.port)),
    {
        let text = self.to_string();
        url::Url::parse(text.as_str())
    }
}

/// What the caller asked for: the local target, the public HTTPS port, the
/// URL path, and whether public (funnel) exposure is on.
#[derive(Debug, Clone, PartialEq, Eq)]
pub struct TunnelSpec {
    pub local_target: LocalTarget,
    pub https_port: u16,
    pub path: String,
    pub funnel: bool,
}

impl TunnelSpec {
    pub fn new(local_target: LocalTarget, https_port: u16, path: String, funnel: bool) -> (r: Self)
        ensures
            r.local_target == local_target,
            r.https_port == https_port,
            r.path@ == path@,
            r.funnel == funnel,
    {
        Self { local_target, https_port, path, funnel }
    }
}

/// Relies on `chrono::Utc::now` and `DateTime::timestamp` for the time now
/// as Unix seconds; nothing is assumed of the clock's reading.
#[verifier::external_body]
fn now_unix_seconds() -> i64 {
    chrono::Utc::now().timestamp()
}

/// A tunnel that came up: its public URL, the lease (session) id that owns
/// it, and when it was applied and expires, as Unix seconds.
#[derive(Debug, Clone, PartialEq, Eq)]
pub struct TunnelResult {
    pub url: String,
    pub lease_id: String,
    pub applied_at: i64,
    pub expires_at: Option<i64>,
}

/// Which backend holds a lease.
#[derive(Debug, Clone, PartialEq, Eq)]
pub enum BackendKind {
    LocalApi,
}

/// A live route owned by this process: the session id, its birth and
/// optional expiry (Unix seconds), what was asked for, and the backend.
#[derive(Debug, Clone, PartialEq, Eq)]
pub struct Lease {
    pub lease_id: String,
    pub created_at: i64,
    pub expires_at: Option<i64>,
    pub tunnel_spec: TunnelSpec,
    pub backend_kind: BackendKind,
}

impl Lease {
    /// A lease born now.
    pub fn new(lease_id: String, tunnel_spec: TunnelSpec, expires_at: Option<i64>) -> (r: Self)
        ensures
            r.lease_id@ == lease_id@,
            r.expires_at == expires_at,
            r.tunnel_spec == tunnel_spec,
            r.backend_kind == BackendKind::LocalApi,
    {
        Self {
            lease_id,
            created_at: now_unix_seconds(),
            expires_at,
            tunnel_spec,
            backend_kind: BackendKind::LocalApi,
        }
    }
}

} // verus!
