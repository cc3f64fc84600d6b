//! Input validation: URL path normalization and checks, TTL bounds, and port
//! checks, each with the exact rule as its contract.
use crate::error::FunnelError;
use crate::error::FunnelErrorV;
use crate::strutil::dec_digits;
use crate::strutil::ends_with_char;
use crate::strutil::push_char_of;
use crate::strutil::str_ends_with_char;
use crate::strutil::str_starts_with_char;
use crate::strutil::u16_to_string;
use crate::strutil::u64_to_string;
use vstd::prelude::*;
use vstd::string::StrSliceExecFns;
use vstd::string::StringExecFns;

verus! {

/// View of a `ValidationWarning`.
#[verifier::ext_equal]
pub enum ValidationWarningV {
    PathTooShort { path: Seq<char>, length: nat },
    TtlTooShort { ttl: u64 },
}

/// A non-fatal finding: a short, guessable path, or a short TTL.
#[derive(Debug, Clone, PartialEq, Eq)]
pub enum ValidationWarning {
    PathTooShort { path: String, length: usize },
    TtlTooShort { ttl: u64 },
}

impl View for ValidationWarning {
    type V = ValidationWarningV;

    open spec fn view(&self) -> ValidationWarningV {
        match self {
            ValidationWarning::PathTooShort { path, length } => ValidationWarningV::PathTooShort {
                path: path@,
                length: *length as nat,
            },
            ValidationWarning::TtlTooShort { ttl } => ValidationWarningV::TtlTooShort { ttl: *ttl },
        }
    }
}

/// The normalized path plus any warnings.
#[derive(Debug, PartialEq, Eq)]
pub struct PathValidationResult {
    pub normalized_path: String,
    pub warnings: Vec<ValidationWarning>,
}

/// The accepted TTL plus any warnings.
#[derive(Debug, PartialEq, Eq)]
pub struct TtlValidationResult {
    pub ttl: u64,
    pub warnings: Vec<ValidationWarning>,
}

/// Whether `c` is a control character (below 0x20).
pub open spec fn is_control_char(c: char) -> bool {
    (c as u32) < 0x20
}

/// Whether any character is a control character.
pub open spec fn has_control_char(s: Seq<char>) -> bool {
    exists|i: int| 0 <= i < s.len() && is_control_char(#[trigger] s[i])
}

/// Whether some `/`-separated segment of `s` is exactly `..`.
pub open spec fn has_dotdot_segment(s: Seq<char>) -> bool {
    exists|i: int|
        0 <= i && i + 2 <= s.len() && #[trigger] s[i] == '.' && s[i + 1] == '.' && (i == 0 || s[i
            - 1] == '/') && (i + 2 == s.len() || s[i + 2] == '/')
}

/// The suffix of `s` from `i` with consecutive slashes collapsed; `prev_slash`
/// says whether a slash was just emitted.
pub open spec fn norm_from(s: Seq<char>, i: int, prev_slash: bool) -> Seq<char>
    decreases s.len() - i,
{
    if i < 0 || i >= s.len() {
        Seq::empty()
    } else if s[i] == '/' && prev_slash {
        norm_from(s, i + 1, true)
    } else {
        seq![s[i]] + norm_from(s, i + 1, s[i] == '/')
    }
}

/// `s` with consecutive slashes collapsed.
pub open spec fn norm_slashes(s: Seq<char>) -> Seq<char> {
    norm_from(s, 0, false)
}

/// The fully normalized path: slashes collapsed, and one trailing slash kept
/// when the input (of more than one character) ended in one.
pub open spec fn normalized_path_of(s: Seq<char>) -> Seq<char> {
    let n = norm_slashes(s);
    if ends_with_char(s, '/') && s.len() > 1 && !ends_with_char(n, '/') {
        n.push('/')
    } else {
        n
    }
}

/// Collapses consecutive slashes to single slashes.
fn normalize_slashes(path: &str) -> (r: String)
    ensures
        r@ == norm_slashes(path@),
{
    let len = path.unicode_len();
    let mut result = String::new();
    let mut prev_was_slash = false;
    let mut i: usize = 0;
    while i < len
        invariant
            i <= len,
            len == path@.len(),
            norm_slashes(path@) == result@ + norm_from(path@, i as int, prev_was_slash),
        decreases len - i,
    {
        let ch = path.get_char(i);
        let ghost r0 = result@;
        if ch == '/' {
            if !prev_was_slash {
                push_char_of(&mut result, path, i);
                proof {
                    assert(r0 + norm_from(path@, i as int, false) =~= result@ + norm_from(
                        path@,
                        i + 1,
                        true,
                    ));
                }
            }
            prev_was_slash = true;
        } else {
            push_char_of(&mut result, path, i);
            proof {
                assert(r0 + norm_from(path@, i as int, prev_was_slash) =~= result@ + norm_from(
                    path@,
                    i + 1,
                    false,
                ));
            }
            prev_was_slash = false;
        }
        i += 1;
    }
    proof {
        assert(result@ + norm_from(path@, len as int, prev_was_slash) =~= result@);
    }
    result
}

fn contains_control_char(path: &str) -> (r: bool)
    ensures
        r == has_control_char(path@),
{
    let len = path.unicode_len();
    let mut i: usize = 0;
    while i < len
        invariant
            i <= len,
            len == path@.len(),
            forall|j: int| 0 <= j < i ==> !is_control_char(#[trigger] path@[j]),
        decreases len - i,
    {
        if (path.get_char(i) as u32) < 0x20 {
            return true;
        }
        i += 1;
    }
    false
}

fn contains_dotdot_segment(path: &str) -> (r: bool)
    ensures
        r == has_dotdot_segment(path@),
{
    let len = path.unicode_len();
    let mut i: usize = 0;
    while i < len
        invariant
            i <= len,
            len == path@.len(),
            forall|j: int|
                0 <= j < i ==> !(j + 2 <= path@.len() && #[trigger] path@[j] == '.' && path@[j + 1]
                    == '.' && (j == 0 || path@[j - 1] == '/') && (j + 2 == path@.len() || path@[j
                    + 2] == '/')),
        decreases len - i,
    {
        if len - i >= 2 && path.get_char(i) == '.' && path.get_char(i + 1) == '.' && (i == 0
            || path.get_char(i - 1) == '/') && (len - i == 2 || path.get_char(i + 2) == '/') {
            return true;
        }
        i += 1;
    }
    false
}

/// Validates and normalizes a URL path.
///
/// The path must start with `/`, hold no control character (below 0x20) and
/// no `..` segment — each violation is a distinct invalid-argument error, in
/// that order. Consecutive slashes collapse to one; a trailing slash is kept.
/// A normalized path shorter than eight characters is accepted with a
/// warning, not an error.
pub fn validate_path(path: &str) -> (r: Result<PathValidationResult, FunnelError>)
    ensures
        match r {
            Ok(res) => {
                &&& path@.len() > 0 && path@[0] == '/'
                &&& !has_control_char(path@)
                &&& !has_dotdot_segment(path@)
                &&& res.normalized_path@ == normalized_path_of(path@)
                &&& if normalized_path_of(path@).len() < 8 {
                    res.warnings@.len() == 1 && res.warnings@[0]@
                        == (ValidationWarningV::PathTooShort {
                        path: normalized_path_of(path@),
                        length: normalized_path_of(path@).len(),
                    })
                } else {
                    res.warnings@.len() == 0
                }
            },
            Err(e) => {
                &&& e@ == if !(path@.len() > 0 && path@[0] == '/') {
                    FunnelErrorV::InvalidArgument("path must start with '/'"@)
                } else if has_control_char(path@) {
                    FunnelErrorV::InvalidArgument("path contains control characters"@)
                } else {
                    FunnelErrorV::InvalidArgument("path cannot contain '..' segments"@)
                }
                &&& (!(path@.len() > 0 && path@[0] == '/') || has_control_char(path@)
                    || has_dotdot_segment(path@))
            },
        },
{
    if !str_starts_with_char(path, '/') {
        return Err(FunnelError::InvalidArgument("path must start with '/'".to_owned()));
    }
    if contains_control_char(path) {
        return Err(FunnelError::InvalidArgument("path contains control characters".to_owned()));
    }
    if contains_dotdot_segment(path) {
        return Err(FunnelError::InvalidArgument("path cannot contain '..' segments".to_owned()));
    }
    let len = path.unicode_len();
    let has_trailing_slash = str_ends_with_char(path, '/') && len > 1;
    let normalized = normalize_slashes(path);
    let mut normalized_path = normalized;
    if has_trailing_slash && !str_ends_with_char(normalized_path.as_str(), '/') {
        proof {
            reveal_strlit("/");
        }
        normalized_path.append("/");
        proof {
            assert(normalized_path@ =~= norm_slashes(path@).push('/'));
        }
    }
    let norm_len = normalized_path.as_str().unicode_len();
    let mut warnings: Vec<ValidationWarning> = Vec::new();
    if norm_len < 8 {
        warnings.push(
            ValidationWarning::PathTooShort { path: normalized_path.clone(), length: norm_len },
        );
    }
    Ok(PathValidationResult { normalized_path, warnings })
}

/// Validates a TTL in seconds: under 30 is rejected; from 30 up to (but not
/// including) 300 it is accepted with a warning; from 300 up it is accepted
/// without one.
pub fn validate_ttl(ttl: u64) -> (r: Result<TtlValidationResult, FunnelError>)
    ensures
        match r {
            Ok(res) => {
                &&& ttl >= 30
                &&& res.ttl == ttl
                &&& if ttl < 300 {
                    res.warnings@.len() == 1 && res.warnings@[0]@
                        == (ValidationWarningV::TtlTooShort { ttl })
                } else {
                    res.warnings@.len() == 0
                }
            },
            Err(e) => ttl < 30 && e@ == FunnelErrorV::InvalidArgument(
                "TTL must be at least 30 seconds, got "@ + dec_digits(ttl as nat) + " seconds"@,
            ),
        },
{
    if ttl < 30 {
        let mut m = "TTL must be at least 30 seconds, got ".to_owned();
        let d = u64_to_string(ttl);
        m.append(d.as_str());
        m.append(" seconds");
        return Err(FunnelError::InvalidArgument(m));
    }
    let mut warnings: Vec<ValidationWarning> = Vec::new();
    if ttl < 300 {
        warnings.push(ValidationWarning::TtlTooShort { ttl });
    }
    Ok(TtlValidationResult { ttl, warnings })
}

/// Validates a local port: zero is rejected.
pub fn validate_port(port: u16) -> (r: Result<(), FunnelError>)
    ensures
        match r {
            Ok(()) => port != 0,
            Err(e) => port == 0 && e@ == FunnelErrorV::InvalidArgument(
                "port must be between 1 and 65535"@,
            ),
        },
{
    if port == 0 {
        return Err(FunnelError::InvalidArgument("port must be between 1 and 65535".to_owned()));
    }
    Ok(())
}

/// Whether a public HTTPS port is one this tool accepts.
pub open spec fn allowed_https_port(port: u16) -> bool {
    port == 443 || port == 8443 || port == 10000
}

/// Validates the public HTTPS port: only 443, 8443 and 10000 are accepted.
pub fn validate_https_port(port: u16) -> (r: Result<(), FunnelError>)
    ensures
        match r {
            Ok(()) => allowed_https_port(port),
            Err(e) => !allowed_https_port(port) && e@ == FunnelErrorV::InvalidArgument(
                "HTTPS port must be one of [443, 8443, 10000], got "@ + dec_digits(port as nat),
            ),
        },
{
    if port == 443 || port == 8443 || port == 10000 {
        return Ok(());
    }
    let mut m = "HTTPS port must be one of [443, 8443, 10000], got ".to_owned();
    let d = u16_to_string(port);
    m.append(d.as_str());
    Err(FunnelError::InvalidArgument(m))
}

} // verus!
