//! Daemon version parsing and the minimum-version gate.
use crate::error::FunnelError;
use crate::error::FunnelErrorV;
use crate::strutil::all_digits;
use crate::strutil::dec_val;
use crate::strutil::parse_u32_digits;
use vstd::prelude::*;
use vstd::string::StrSliceExecFns;
use vstd::string::StringExecFns;

verus! {

/// Whether `c` separates version segments.
pub open spec fn is_version_sep(c: char) -> bool {
    c == '.' || c == '-'
}

/// The index of the first separator at or after `from`, or the length.
pub open spec fn seg_end(s: Seq<char>, from: int) -> int
    decreases s.len() - from,
{
    if from < 0 || from >= s.len() {
        s.len() as int
    } else if is_version_sep(s[from]) {
        from
    } else {
        seg_end(s, from + 1)
    }
}

/// Whether a segment reads as a `u32`.
pub open spec fn seg_parses(seg: Seq<char>) -> bool {
    seg.len() > 0 && all_digits(seg) && dec_val(seg) <= u32::MAX
}

/// What `parse_version` returns: the first three `.`/`-`-separated segments
/// as numbers, a missing third segment meaning zero; `None` when the first
/// two are not both numeric.
pub open spec fn parse_version_spec(s: Seq<char>) -> Option<(u32, u32, u32)> {
    let e1 = seg_end(s, 0);
    let seg1 = s.subrange(0, e1);
    if !seg_parses(seg1) {
        None
    } else if e1 >= s.len() {
        None
    } else {
        let e2 = seg_end(s, e1 + 1);
        let seg2 = s.subrange(e1 + 1, e2);
        if !seg_parses(seg2) {
            None
        } else if e2 >= s.len() {
            Some((dec_val(seg1) as u32, dec_val(seg2) as u32, 0))
        } else {
            let e3 = seg_end(s, e2 + 1);
            let seg3 = s.subrange(e2 + 1, e3);
            if !seg_parses(seg3) {
                None
            } else {
                Some((dec_val(seg1) as u32, dec_val(seg2) as u32, dec_val(seg3) as u32))
            }
        }
    }
}

/// Whether a version triple reaches the minimum supported daemon version,
/// 1.50.0, in lexicographic order.
pub open spec fn version_at_least_min(t: (u32, u32, u32)) -> bool {
    t.0 > 1 || (t.0 == 1 && t.1 >= 50)
}

fn find_seg_end(s: &str, from: usize) -> (r: usize)
    requires
        from <= s@.len(),
    ensures
        r == seg_end(s@, from as int),
        from <= r <= s@.len(),
{
    let len = s.unicode_len();
    let mut i = from;
    while i < len
        invariant
            from <= i <= len,
            len == s@.len(),
            seg_end(s@, from as int) == seg_end(s@, i as int),
        decreases len - i,
    {
        let c = s.get_char(i);
        if c == '.' || c == '-' {
            return i;
        }
        i += 1;
    }
    len
}

/// Parses a version string into its (major, minor, patch) triple. A missing
/// patch segment counts as zero; a missing or non-numeric major or minor
/// segment means no version.
pub fn parse_version(version: &str) -> (r: Option<(u32, u32, u32)>)
    ensures
        r == parse_version_spec(version@),
{
    let len = version.unicode_len();
    let e1 = find_seg_end(version, 0);
    let seg1 = version.substring_char(0, e1);
    let major = match parse_u32_digits(seg1) {
        Some(v) => v,
        None => {
            return None;
        },
    };
    if e1 >= len {
        return None;
    }
    let e2 = find_seg_end(version, e1 + 1);
    let seg2 = version.substring_char(e1 + 1, e2);
    let minor = match parse_u32_digits(seg2) {
        Some(v) => v,
        None => {
            return None;
        },
    };
    if e2 >= len {
        return Some((major, minor, 0));
    }
    let e3 = find_seg_end(version, e2 + 1);
    let seg3 = version.substring_char(e2 + 1, e3);
    let patch = match parse_u32_digits(seg3) {
        Some(v) => v,
        None => {
            return None;
        },
    };
    Some((major, minor, patch))
}

/// Whether a version string reaches 1.50.0, reading each of the first three
/// segments leniently: a missing or non-numeric segment counts as zero.
pub open spec fn version_supported_spec(s: Seq<char>) -> bool {
    let e1 = seg_end(s, 0);
    let seg1 = s.subrange(0, e1);
    let major: u32 = if seg_parses(seg1) {
        dec_val(seg1) as u32
    } else {
        0
    };
    let minor: u32 = if e1 < s.len() && seg_parses(s.subrange(e1 + 1, seg_end(s, e1 + 1))) {
        dec_val(s.subrange(e1 + 1, seg_end(s, e1 + 1))) as u32
    } else {
        0
    };
    major > 1 || (major == 1 && minor >= 50)
}

/// The lenient version gate used by the diagnosis report.
pub fn version_supported(version: &str) -> (r: bool)
    ensures
        r == version_supported_spec(version@),
{
    let len = version.unicode_len();
    let e1 = find_seg_end(version, 0);
    let seg1 = version.substring_char(0, e1);
    let major: u32 = match parse_u32_digits(seg1) {
        Some(v) => v,
        None => 0,
    };
    let minor: u32 = if e1 < len {
        let e2 = find_seg_end(version, e1 + 1);
        let seg2 = version.substring_char(e1 + 1, e2);
        match parse_u32_digits(seg2) {
            Some(v) => v,
            None => 0,
        }
    } else {
        0
    };
    major > 1 || (major == 1 && minor >= 50)
}

/// Requires a reported daemon version of at least 1.50.0: a missing,
/// unparsable, or older version is each a distinct too-old error.
pub fn ensure_version_supported(version: Option<&str>) -> (r: Result<(), FunnelError>)
    ensures
        match r {
            Ok(()) => version matches Some(v) && parse_version_spec(v@) matches Some(t)
                && version_at_least_min(t),
            Err(e) => match version {
                None => e@ == (FunnelErrorV::VersionTooOld {
                    context: "tailscaled version missing"@,
                }),
                Some(v) => {
                    &&& !(parse_version_spec(v@) matches Some(t) && version_at_least_min(t))
                    &&& e@ == (FunnelErrorV::VersionTooOld {
                        context: if parse_version_spec(v@) is None {
                            "Unsupported tailscaled version "@ + v@
                        } else {
                            "tailscaled version "@ + v@ + " is not supported"@
                        },
                    })
                },
            },
        },
{
    let version = match version {
        Some(v) => v,
        None => {
            return Err(
                FunnelError::VersionTooOld { context: "tailscaled version missing".to_owned() },
            );
        },
    };
    let parsed = match parse_version(version) {
        Some(t) => t,
        None => {
            let mut context = "Unsupported tailscaled version ".to_owned();
            context.append(version);
            return Err(FunnelError::VersionTooOld { context });
        },
    };
    let (major, minor, _patch) = parsed;
    if !(major > 1 || (major == 1 && minor >= 50)) {
        let mut context = "tailscaled version ".to_owned();
        context.append(version);
        context.append(" is not supported");
        return Err(FunnelError::VersionTooOld { context });
    }
    Ok(())
}

} // verus!
