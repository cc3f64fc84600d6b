//! Transport-level logic: request descriptors, endpoint selection, the
//! credential file's rules, basic-auth construction, and the one-retry
//! credential-refresh rule for an unauthorized reply.
use crate::error::FunnelError;
use crate::error::FunnelErrorV;
use crate::error::LocalApiError;
use crate::error::LocalApiErrorV;
use base64::Engine;
use vstd::prelude::*;
use vstd::string::StrSliceExecFns;
use vstd::string::StringExecFns;

verus! {

/// What base64's standard engine returns for a string's UTF-8 bytes.
pub uninterp spec fn base64_std(s: Seq<char>) -> Seq<char>;

/// Relies on base64's `Engine::encode` with the standard alphabet: the
/// encoding of the argument's UTF-8 bytes, a function of the argument alone.
#[verifier::external_body]
fn b64_encode(s: &str) -> (r: String)
    ensures
        r@ == base64_std(s@),
{
    base64::engine::general_purpose::STANDARD.encode(s.as_bytes())
}

/// View of a `TransportRequest`.
#[verifier::ext_equal]
pub struct TransportRequestV {
    pub method: Seq<char>,
    pub path: Seq<char>,
    pub headers: Seq<(Seq<char>, Seq<char>)>,
    pub body: Option<Seq<u8>>,
}

/// One request to the control API, as plain values: method, rooted path,
/// extra headers, optional body.
#[derive(Debug, PartialEq, Eq)]
pub struct TransportRequest {
    pub method: String,
    pub path: String,
    pub headers: Vec<(String, String)>,
    pub body: Option<Vec<u8>>,
}

/// View of a header list.
pub open spec fn headers_view(hs: Seq<(String, String)>) -> Seq<(Seq<char>, Seq<char>)> {
    hs.map_values(|h: (String, String)| (h.0@, h.1@))
}

impl View for TransportRequest {
    type V = TransportRequestV;

    open spec fn view(&self) -> TransportRequestV {
        TransportRequestV {
            method: self.method@,
            path: self.path@,
            headers: headers_view(self.headers@),
            body: match self.body {
                Some(b) => Some(b@),
                None => None,
            },
        }
    }
}

/// `path` rooted: unchanged when it already starts with `/`, else prefixed.
pub open spec fn rooted_path(path: Seq<char>) -> Seq<char> {
    if path.len() > 0 && path[0] == '/' {
        path
    } else {
        seq!['/'] + path
    }
}

impl TransportRequest {
    /// A bodyless, headerless request; the path is rooted with `/`.
    pub fn new(method: String, path: String) -> (r: Self)
        ensures
            r@.method == method@,
            r@.path == rooted_path(path@),
            r@.headers == Seq::<(Seq<char>, Seq<char>)>::empty(),
            r@.body is None,
    {
        let rooted = if crate::strutil::str_starts_with_char(path.as_str(), '/') {
            path
        } else {
            proof {
                reveal_strlit("/");
            }
            let mut p = "/".to_owned();
            p.append(path.as_str());
            proof {
                assert(p@ =~= rooted_path(path@));
            }
            p
        };
        let r = TransportRequest { method, path: rooted, headers: Vec::new(), body: None };
        proof {
            assert(r@.headers =~= Seq::<(Seq<char>, Seq<char>)>::empty());
        }
        r
    }

    /// The same request carrying `body`.
    pub fn with_body(self, body: Vec<u8>) -> (r: Self)
        ensures
            r@.method == self@.method,
            r@.path == self@.path,
            r@.headers == self@.headers,
            r@.body == Some(body@),
    {
        TransportRequest { method: self.method, path: self.path, headers: self.headers, body: Some(body) }
    }

    /// Adds a header.
    pub fn push_header(&mut self, name: String, value: String)
        ensures
            final(self)@.method == old(self)@.method,
            final(self)@.path == old(self)@.path,
            final(self)@.body == old(self)@.body,
            final(self)@.headers == old(self)@.headers.push((name@, value@)),
    {
        self.headers.push((name, value));
        proof {
            assert(self@.headers =~= old(self)@.headers.push((name@, value@)));
        }
    }
}

/// The basic-auth header value the TCP channel sends: the shared secret as
/// the password of an empty user name.
pub open spec fn basic_auth_of(password: Seq<char>) -> Seq<char> {
    "Basic "@ + base64_std(":"@ + password)
}

/// Builds the basic-auth header value for the shared secret.
pub fn build_basic_auth(password: &str) -> (r: String)
    ensures
        r@ == basic_auth_of(password@),
{
    let mut creds = ":".to_owned();
    creds.append(password);
    proof {
        assert(creds@ =~= ":"@ + password@);
    }
    let encoded = b64_encode(creds.as_str());
    let mut r = "Basic ".to_owned();
    r.append(encoded.as_str());
    r
}

/// `s` without its run of trailing newline characters.
pub open spec fn trim_newlines(s: Seq<char>) -> Seq<char>
    decreases s.len(),
{
    if s.len() > 0 && (s.last() == '\r' || s.last() == '\n') {
        trim_newlines(s.drop_last())
    } else {
        s
    }
}

/// Checks and trims a just-read credential file's contents: trailing newline
/// characters go; what remains must be nonempty, else it is a distinct
/// configuration error naming the file.
#[verifier::loop_isolation(true)]
pub fn clean_password(contents: &str, path: &str) -> (r: Result<String, LocalApiError>)
    ensures
        match r {
            Ok(p) => trim_newlines(contents@).len() > 0 && p@ == trim_newlines(contents@),
            Err(e) => trim_newlines(contents@).len() == 0 && e@ == (LocalApiErrorV::EmptyPasswordFile {
                path: path@,
            }),
        },
{
    let len = contents.unicode_len();
    let mut end = len;
    proof {
        assert(contents@.take(len as int) =~= contents@);
    }
    while end > 0
        invariant
            end <= len,
            len == contents@.len(),
            trim_newlines(contents@) == trim_newlines(contents@.take(end as int)),
        ensures
            end <= len,
            trim_newlines(contents@) == trim_newlines(contents@.take(end as int)),
            end == 0 || !(contents@[end - 1] == '\r' || contents@[end - 1] == '\n'),
        decreases end,
    {
        let c = contents.get_char(end - 1);
        if c != '\r' && c != '\n' {
            break;
        }
        proof {
            assert(contents@.take(end as int).drop_last() =~= contents@.take(end - 1));
        }
        end -= 1;
    }
    proof {
        assert(trim_newlines(contents@.take(end as int)) == contents@.take(end as int));
    }
    if end == 0 {
        return Err(LocalApiError::EmptyPasswordFile { path: path.to_owned() });
    }
    let trimmed = contents.substring_char(0, end);
    proof {
        assert(contents@.subrange(0, end as int) =~= contents@.take(end as int));
    }
    Ok(trimmed.to_owned())
}

/// Checks a credential file's permission bits: exactly owner read/write.
pub fn validate_password_permissions(mode: u32, path: &str) -> (r: Result<(), LocalApiError>)
    ensures
        match r {
            Ok(()) => mode == 0o600,
            Err(e) => mode != 0o600 && e@ == (LocalApiErrorV::PasswordPermissions {
                path: path@,
                mode,
            }),
        },
{
    if mode != 0o600 {
        return Err(LocalApiError::PasswordPermissions { path: path.to_owned(), mode });
    }
    Ok(())
}

/// Whether a reply's status calls for the one credential refresh: it was
/// unauthorized and no refresh has happened yet in this send.
pub open spec fn refresh_needed(status: u16, already_retried: bool) -> bool {
    status == 401 && !already_retried
}

/// The refresh rule the TCP channel follows after each reply.
pub fn credential_refresh_needed(status: u16, already_retried: bool) -> (r: bool)
    ensures
        r == refresh_needed(status, already_retried),
{
    status == 401 && !already_retried
}

/// What a whole send yields over the per-attempt reply statuses: the reply
/// handed to the caller, and how many times the credential file was re-read.
pub open spec fn tcp_exchange(statuses: Seq<u16>) -> (u16, nat)
    recommends
        statuses.len() >= 1,
        refresh_needed(statuses[0], false) ==> statuses.len() >= 2,
{
    if statuses.len() >= 2 && refresh_needed(statuses[0], false) {
        (statuses[1], 1)
    } else {
        (statuses[0], 0)
    }
}

/// Replays the refresh rule over recorded reply statuses.
pub fn resolve_tcp_exchange(statuses: &Vec<u16>) -> (r: Option<(u16, usize)>)
    ensures
        match r {
            Some(x) => statuses@.len() >= 1 && (x.0, x.1 as nat) == tcp_exchange(statuses@),
            None => statuses@.len() == 0 || (statuses@.len() == 1 && statuses@[0] == 401),
        },
{
    if statuses.len() == 0 {
        return None;
    }
    let first = statuses[0];
    if credential_refresh_needed(first, false) {
        if statuses.len() < 2 {
            return None;
        }
        Some((statuses[1], 1))
    } else {
        Some((first, 0))
    }
}

/// A transport returning unauthorized exactly once and then succeeding
/// yields overall success, with exactly one credential re-read.
pub proof fn lemma_unauthorized_once_single_refresh(statuses: Seq<u16>)
    requires
        statuses.len() >= 2,
        statuses[0] == 401,
        statuses[1] == 200,
    ensures
        tcp_exchange(statuses) == (200u16, 1nat),
{
}

/// A second unauthorized reply is terminal: the exchange ends unauthorized —
/// which the error translation turns into a permission error — and the
/// credential file was still re-read only once.
pub proof fn lemma_second_unauthorized_terminal(statuses: Seq<u16>)
    requires
        statuses.len() >= 2,
        statuses[0] == 401,
        statuses[1] == 401,
    ensures
        tcp_exchange(statuses) == (401u16, 1nat),
{
}

/// A reply other than unauthorized never triggers a refresh.
pub proof fn lemma_no_refresh_without_unauthorized(statuses: Seq<u16>)
    requires
        statuses.len() >= 1,
        statuses[0] != 401,
    ensures
        tcp_exchange(statuses) == (statuses[0], 0nat),
{
}

/// View of a `TransportPlan`.
#[verifier::ext_equal]
pub enum TransportPlanV {
    TcpAuth { host: Seq<char>, port: u16, password_file: Seq<char> },
    UnixSocket { socket: Seq<char> },
    ProbeWellKnown,
}

/// How to reach the control API: an authenticated TCP loopback endpoint, a
/// named socket, or a probe of the well-known socket paths.
#[derive(Debug, PartialEq, Eq)]
pub enum TransportPlan {
    TcpAuth { host: String, port: u16, password_file: String },
    UnixSocket { socket: String },
    ProbeWellKnown,
}

impl View for TransportPlan {
    type V = TransportPlanV;

    open spec fn view(&self) -> TransportPlanV {
        match self {
            TransportPlan::TcpAuth { host, port, password_file } => TransportPlanV::TcpAuth {
                host: host@,
                port: *port,
                password_file: password_file@,
            },
            TransportPlan::UnixSocket { socket } => TransportPlanV::UnixSocket { socket: socket@ },
            TransportPlan::ProbeWellKnown => TransportPlanV::ProbeWellKnown,
        }
    }
}

/// Resolves the transport choice, in order: an explicit TCP port (which
/// requires the password file), an explicit socket path, else the well-known
/// socket probe.
pub fn plan_transport(
    localapi_port: Option<u16>,
    localapi_password_file: Option<String>,
    socket: Option<String>,
) -> (r: Result<TransportPlan, FunnelError>)
    ensures
        match r {
            Ok(plan) => match localapi_port {
                Some(port) => localapi_password_file matches Some(f) && plan@
                    == (TransportPlanV::TcpAuth {
                    host: "127.0.0.1"@,
                    port,
                    password_file: f@,
                }),
                None => match socket {
                    Some(p) => plan@ == (TransportPlanV::UnixSocket { socket: p@ }),
                    None => plan@ == TransportPlanV::ProbeWellKnown,
                },
            },
            Err(e) => localapi_port is Some && localapi_password_file is None && e@
                == FunnelErrorV::InvalidArgument(
                "--localapi-password-file is required when using --localapi-port"@,
            ),
        },
{
    match localapi_port {
        Some(port) => {
            let password_file = match localapi_password_file {
                Some(f) => f,
                None => {
                    return Err(
                        FunnelError::InvalidArgument(
                            "--localapi-password-file is required when using --localapi-port".to_owned(),
                        ),
                    );
                },
            };
            Ok(TransportPlan::TcpAuth { host: "127.0.0.1".to_owned(), port, password_file })
        },
        None => match socket {
            Some(p) => Ok(TransportPlan::UnixSocket { socket: p }),
            None => Ok(TransportPlan::ProbeWellKnown),
        },
    }
}

/// The well-known socket paths, probed in order.
pub fn socket_candidates() -> (r: Vec<String>)
    ensures
        r@.len() == 2,
        r@[0]@ == "/var/run/tailscale/tailscaled.sock"@,
        r@[1]@ == "/run/tailscale/tailscaled.sock"@,
{
    let mut v: Vec<String> = Vec::new();
    v.push("/var/run/tailscale/tailscaled.sock".to_owned());
    v.push("/run/tailscale/tailscaled.sock".to_owned());
    v
}

/// The error for an explicitly named socket that is not there.
pub fn socket_not_found_error(path: &str) -> (r: FunnelError)
    ensures
        r@ == (FunnelErrorV::Unreachable { context: "Socket "@ + path@ + " not found"@ }),
{
    let mut context = "Socket ".to_owned();
    context.append(path);
    context.append(" not found");
    FunnelError::Unreachable { context }
}

/// The error when no socket could be found at all.
pub fn no_socket_error() -> (r: FunnelError)
    ensures
        r@ == (FunnelErrorV::Unreachable {
            context: "No LocalAPI socket found; try --localapi-port with --localapi-password-file"@,
        }),
{
    FunnelError::Unreachable {
        context: "No LocalAPI socket found; try --localapi-port with --localapi-password-file".to_owned(),
    }
}

/// The fixed virtual host the socket channel names in every request.
pub fn local_api_host() -> (r: String)
    ensures
        r@ == "local-tailscaled.sock"@,
{
    "local-tailscaled.sock".to_owned()
}

} // verus!
