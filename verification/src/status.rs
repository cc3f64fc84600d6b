//! Interpretation of the daemon's status report: version, node DNS identity,
//! HTTPS certificate state, and the funnel capability, each read from the
//! status document with documented fallbacks, unknown fields ignored.
use crate::json::jarr;
use crate::json::jbool;
use crate::json::jobj_get;
use crate::json::jstr;
use crate::json::jv_as_arr;
use crate::json::jv_as_bool;
use crate::json::jv_as_str;
use crate::json::jv_obj_get;
use crate::json::JVal;
use crate::json::JsonValue;
use crate::strutil::ends_with_char;
use crate::strutil::trim_trailing_dot;
use vstd::prelude::*;
use vstd::string::StrSliceExecFns;
use vstd::string::StringExecFns;

verus! {

/// View of a `BackendStatus`.
#[verifier::ext_equal]
pub struct BackendStatusV {
    pub dns_name: Option<Seq<char>>,
    pub version: Option<Seq<char>>,
    pub https_enabled: Option<bool>,
    pub funnel_enabled: Option<bool>,
    pub permissions_ok: Option<bool>,
}

/// What the daemon reported: its version, the node's DNS name, whether HTTPS
/// certificates are available, whether policy allows funnel, and whether the
/// serving configuration could be read.
#[derive(Debug, Clone, PartialEq, Eq)]
pub struct BackendStatus {
    pub dns_name: Option<String>,
    pub version: Option<String>,
    pub https_enabled: Option<bool>,
    pub funnel_enabled: Option<bool>,
    pub permissions_ok: Option<bool>,
}

impl View for BackendStatus {
    type V = BackendStatusV;

    open spec fn view(&self) -> BackendStatusV {
        BackendStatusV {
            dns_name: match self.dns_name {
                Some(s) => Some(s@),
                None => None,
            },
            version: match self.version {
                Some(s) => Some(s@),
                None => None,
            },
            https_enabled: self.https_enabled,
            funnel_enabled: self.funnel_enabled,
            permissions_ok: self.permissions_ok,
        }
    }
}

/// Two keys down into a document.
pub open spec fn jpath2(v: JVal, k1: Seq<char>, k2: Seq<char>) -> Option<JVal> {
    match jobj_get(v, k1) {
        Some(x) => jobj_get(x, k2),
        None => None,
    }
}

/// The string two keys down, if the path leads to one.
pub open spec fn jstr_at2(v: JVal, k1: Seq<char>, k2: Seq<char>) -> Option<Seq<char>> {
    match jpath2(v, k1, k2) {
        Some(x) => jstr(x),
        None => None,
    }
}

/// `s` without one trailing dot.
pub open spec fn trimmed_dot(s: Seq<char>) -> Seq<char> {
    if ends_with_char(s, '.') {
        s.drop_last()
    } else {
        s
    }
}

/// The node's DNS name: `Self.DNSName` with a trailing dot trimmed, else
/// `Self.HostName` joined by a dot to the first of
/// `CurrentTailnet.MagicDNSSuffix`, `MagicDNSSuffix`, `CurrentTailnet.Name`.
pub open spec fn dns_name_of(v: JVal) -> Option<Seq<char>> {
    match jstr_at2(v, "Self"@, "DNSName"@) {
        Some(d) => Some(trimmed_dot(d)),
        None => {
            let host = jstr_at2(v, "Self"@, "HostName"@);
            let suffix = match jstr_at2(v, "CurrentTailnet"@, "MagicDNSSuffix"@) {
                Some(s) => Some(s),
                None => match jobj_get(v, "MagicDNSSuffix"@) {
                    Some(x) => match jstr(x) {
                        Some(s) => Some(s),
                        None => jstr_at2(v, "CurrentTailnet"@, "Name"@),
                    },
                    None => jstr_at2(v, "CurrentTailnet"@, "Name"@),
                },
            };
            match host {
                Some(h) => match suffix {
                    Some(s) => Some(h + "."@ + s),
                    None => None,
                },
                None => None,
            }
        },
    }
}

/// Whether HTTPS certificates are available: a `Self.CertDomains` or
/// top-level `CertDomains` array means its non-emptiness; else `Self.HTTPS`.
pub open spec fn https_enabled_of(v: JVal) -> Option<bool> {
    match jpath2(v, "Self"@, "CertDomains"@) {
        Some(x) if jarr(x) is Some => Some(jarr(x).unwrap().len() > 0),
        _ => match jobj_get(v, "CertDomains"@) {
            Some(x) if jarr(x) is Some => Some(jarr(x).unwrap().len() > 0),
            _ => match jpath2(v, "Self"@, "HTTPS"@) {
                Some(x) => jbool(x),
                None => None,
            },
        },
    }
}

/// Whether `s` spells the funnel capability, ASCII case ignored.
pub open spec fn is_funnel_word(s: Seq<char>) -> bool {
    s.len() == 6 && (s[0] == 'f' || s[0] == 'F') && (s[1] == 'u' || s[1] == 'U') && (s[2] == 'n'
        || s[2] == 'N') && (s[3] == 'n' || s[3] == 'N') && (s[4] == 'e' || s[4] == 'E') && (s[5]
        == 'l' || s[5] == 'L')
}

/// Whether some capability entry names funnel.
pub open spec fn caps_have_funnel(items: Seq<JVal>) -> bool {
    exists|i: int|
        0 <= i < items.len() && (jstr(#[trigger] items[i]) matches Some(s) && is_funnel_word(s))
}

/// Whether policy allows funnel: `Funnel.Enabled`, else
/// `Self.Capabilities.Funnel` when capabilities form an object reached by
/// that path, else a capability list naming funnel, else an object
/// capability table's `Funnel` entry.
pub open spec fn funnel_enabled_of(v: JVal) -> Option<bool> {
    match jpath2(v, "Funnel"@, "Enabled"@) {
        Some(x) if jbool(x) is Some => jbool(x),
        _ => {
            let caps = jpath2(v, "Self"@, "Capabilities"@);
            match caps {
                Some(c) => match jobj_get(c, "Funnel"@) {
                    Some(x) if jbool(x) is Some => jbool(x),
                    _ => match jarr(c) {
                        Some(items) => Some(caps_have_funnel(items)),
                        None => match jobj_get(c, "Funnel"@) {
                            Some(x) => jbool(x),
                            None => None,
                        },
                    },
                },
                None => None,
            }
        },
    }
}

/// The status view read from a document.
pub open spec fn status_of(v: JVal) -> BackendStatusV {
    BackendStatusV {
        dns_name: dns_name_of(v),
        version: match jobj_get(v, "Version"@) {
            Some(x) => jstr(x),
            None => None,
        },
        https_enabled: https_enabled_of(v),
        funnel_enabled: funnel_enabled_of(v),
        permissions_ok: None,
    }
}

fn json_str_at2<'a>(v: &'a JsonValue, k1: &str, k2: &str) -> (r: Option<&'a String>)
    ensures
        match r {
            Some(s) => jstr_at2(v@, k1@, k2@) == Some(s@),
            None => jstr_at2(v@, k1@, k2@) is None,
        },
{
    match jv_obj_get(v, k1) {
        Some(x) => match jv_obj_get(x, k2) {
            Some(y) => jv_as_str(y),
            None => None,
        },
        None => None,
    }
}

/// Reads the node's DNS name from the status document.
pub fn parse_dns_name(v: &JsonValue) -> (r: Option<String>)
    ensures
        match r {
            Some(s) => dns_name_of(v@) == Some(s@),
            None => dns_name_of(v@) is None,
        },
{
    match json_str_at2(v, "Self", "DNSName") {
        Some(d) => {
            let t = trim_trailing_dot(d.as_str());
            return Some(t.to_owned());
        },
        None => {},
    }
    let host = match json_str_at2(v, "Self", "HostName") {
        Some(h) => h,
        None => {
            return None;
        },
    };
    let suffix: &String = match json_str_at2(v, "CurrentTailnet", "MagicDNSSuffix") {
        Some(s) => s,
        None => {
            let top = match jv_obj_get(v, "MagicDNSSuffix") {
                Some(x) => jv_as_str(x),
                None => None,
            };
            match top {
                Some(s) => s,
                None => match json_str_at2(v, "CurrentTailnet", "Name") {
                    Some(s) => s,
                    None => {
                        return None;
                    },
                },
            }
        },
    };
    let mut out = host.clone();
    out.append(".");
    out.append(suffix.as_str());
    proof {
        reveal_strlit(".");
        assert(out@ =~= host@ + "."@ + suffix@);
    }
    Some(out)
}

/// Reads the HTTPS certificate state from the status document.
pub fn parse_https_enabled(v: &JsonValue) -> (r: Option<bool>)
    ensures
        r == https_enabled_of(v@),
{
    match jv_obj_get(v, "Self") {
        Some(sx) => match jv_obj_get(sx, "CertDomains") {
            Some(x) => match jv_as_arr(x) {
                Some(domains) => {
                    return Some(domains.len() > 0);
                },
                None => {},
            },
            None => {},
        },
        None => {},
    }
    match jv_obj_get(v, "CertDomains") {
        Some(x) => match jv_as_arr(x) {
            Some(domains) => {
                return Some(domains.len() > 0);
            },
            None => {},
        },
        None => {},
    }
    match jv_obj_get(v, "Self") {
        Some(sx) => match jv_obj_get(sx, "HTTPS") {
            Some(x) => jv_as_bool(x),
            None => None,
        },
        None => None,
    }
}

fn word_is_funnel(s: &str) -> (r: bool)
    ensures
        r == is_funnel_word(s@),
{
    let len = s.unicode_len();
    if len != 6 {
        return false;
    }
    let c0 = s.get_char(0);
    let c1 = s.get_char(1);
    let c2 = s.get_char(2);
    let c3 = s.get_char(3);
    let c4 = s.get_char(4);
    let c5 = s.get_char(5);
    (c0 == 'f' || c0 == 'F') && (c1 == 'u' || c1 == 'U') && (c2 == 'n' || c2 == 'N') && (c3 == 'n'
        || c3 == 'N') && (c4 == 'e' || c4 == 'E') && (c5 == 'l' || c5 == 'L')
}

fn caps_list_has_funnel(items: &Vec<JsonValue>) -> (r: bool)
    ensures
        r == caps_have_funnel(crate::json::items_view(items@)),
{
    let ghost view = crate::json::items_view(items@);
    let mut i: usize = 0;
    while i < items.len()
        invariant
            i <= items@.len(),
            forall|j: int|
                0 <= j < i ==> !(jstr(#[trigger] view[j]) matches Some(s) && is_funnel_word(s)),
        decreases items@.len() - i,
    {
        proof {
            assert(view[i as int] == crate::json::jval(items@[i as int]));
        }
        match jv_as_str(&items[i]) {
            Some(s) => {
                if word_is_funnel(s.as_str()) {
                    return true;
                }
            },
            None => {},
        }
        i += 1;
    }
    false
}

/// Reads the funnel capability from the status document.
pub fn parse_funnel_enabled(v: &JsonValue) -> (r: Option<bool>)
    ensures
        r == funnel_enabled_of(v@),
{
    match jv_obj_get(v, "Funnel") {
        Some(fx) => match jv_obj_get(fx, "Enabled") {
            Some(x) => match jv_as_bool(x) {
                Some(enabled) => {
                    return Some(enabled);
                },
                None => {},
            },
            None => {},
        },
        None => {},
    }
    let caps = match jv_obj_get(v, "Self") {
        Some(sx) => match jv_obj_get(sx, "Capabilities") {
            Some(c) => c,
            None => {
                return None;
            },
        },
        None => {
            return None;
        },
    };
    match jv_obj_get(caps, "Funnel") {
        Some(x) => match jv_as_bool(x) {
            Some(enabled) => {
                return Some(enabled);
            },
            None => {},
        },
        None => {},
    }
    match jv_as_arr(caps) {
        Some(capabilities) => {
            return Some(caps_list_has_funnel(capabilities));
        },
        None => {},
    }
    match jv_obj_get(caps, "Funnel") {
        Some(x) => jv_as_bool(x),
        None => None,
    }
}

/// Reads the whole status view from the daemon's status document; the
/// permission flag is not part of the document and starts unknown.
pub fn status_from_json(v: &JsonValue) -> (r: BackendStatus)
    ensures
        r@ == status_of(v@),
{
    let version: Option<String> = match jv_obj_get(v, "Version") {
        Some(x) => match jv_as_str(x) {
            Some(s) => Some(s.clone()),
            None => None,
        },
        None => None,
    };
    let dns_name = parse_dns_name(v);
    let https_enabled = parse_https_enabled(v);
    let funnel_enabled = parse_funnel_enabled(v);
    BackendStatus { dns_name, version, https_enabled, funnel_enabled, permissions_ok: None }
}

} // verus!
