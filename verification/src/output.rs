//! The texts of the human-readable output: start banner lines, the stop
//! line, and warning messages. Printing them is the caller's business.
use crate::strutil::u64_to_string;
use crate::validation::ValidationWarning;
use crate::validation::ValidationWarningV;
use vstd::prelude::*;
use vstd::string::StringExecFns;

verus! {

/// What `humantime` renders a duration of whole seconds as.
pub uninterp spec fn human_duration_text(secs: u64) -> Seq<char>;

/// Relies on `humantime::format_duration` (via `Duration::from_secs`): the
/// rendering of a whole-second duration, a function of the seconds alone.
#[verifier::external_body]
fn format_duration_text(secs: u64) -> (r: String)
    ensures
        r@ == human_duration_text(secs),
{
    humantime::format_duration(core::time::Duration::from_secs(secs)).to_string()
}

/// Why the tunnel came down.
#[derive(Debug, Clone, PartialEq, Eq)]
pub enum StopReason {
    UserInterrupt,
    TtlExpired,
    Error,
}

/// The stop line's reason text.
pub open spec fn reason_text_of(reason: StopReason) -> Seq<char> {
    match reason {
        StopReason::UserInterrupt => "Stopped by user"@,
        StopReason::TtlExpired => "TTL expired"@,
        StopReason::Error => "Stopped due to error"@,
    }
}

impl StopReason {
    /// The stop line's reason text.
    pub fn text(&self) -> (r: String)
        ensures
            r@ == reason_text_of(*self),
    {
        match self {
            StopReason::UserInterrupt => "Stopped by user".to_owned(),
            StopReason::TtlExpired => "TTL expired".to_owned(),
            StopReason::Error => "Stopped due to error".to_owned(),
        }
    }
}

/// The warning text shown for a finding.
pub open spec fn warning_text_of(w: ValidationWarningV) -> Seq<char> {
    match w {
        ValidationWarningV::PathTooShort { path, .. } => "Warning: Short path '"@ + path
            + "' is guessable. Consider a longer path or use default random path."@,
        ValidationWarningV::TtlTooShort { ttl } => "Warning: Short TTL ("@ + human_duration_text(
            ttl,
        ) + "). Tunnel expires quickly."@,
    }
}

/// Renders a warning.
pub fn warning_message(w: &ValidationWarning) -> (r: String)
    ensures
        r@ == warning_text_of(w@),
{
    match w {
        ValidationWarning::PathTooShort { path, .. } => {
            let mut s = "Warning: Short path '".to_owned();
            s.append(path.as_str());
            s.append("' is guessable. Consider a longer path or use default random path.");
            s
        },
        ValidationWarning::TtlTooShort { ttl } => {
            let mut s = "Warning: Short TTL (".to_owned();
            let d = format_duration_text(*ttl);
            s.append(d.as_str());
            s.append("). Tunnel expires quickly.");
            s
        },
    }
}

/// The expiry text shown when no TTL was set.
pub fn never_expiry_text() -> (r: String)
    ensures
        r@ == "never (Ctrl-C to stop)"@,
{
    "never (Ctrl-C to stop)".to_owned()
}

/// Renders human-readable output, bold and dimmed with ANSI codes when color
/// is on.
#[derive(Debug, Clone, PartialEq, Eq)]
pub struct HumanOutput {
    pub use_color: bool,
}

/// The banner lines for a tunnel that came up: the URL, the local target,
/// the expiry, and how to stop.
pub open spec fn started_lines_of(
    use_color: bool,
    url: Seq<char>,
    local_target: Seq<char>,
    expiry_text: Seq<char>,
) -> Seq<Seq<char>> {
    let branch = if use_color {
        "\u{1b}[2m\u{251c}\u{2500}\u{1b}[0m"@
    } else {
        "\u{251c}\u{2500}"@
    };
    let local_label = if use_color {
        "\u{1b}[1mLocal:\u{1b}[0m"@
    } else {
        "Local:"@
    };
    let expires_label = if use_color {
        "\u{1b}[1mExpires:\u{1b}[0m"@
    } else {
        "Expires:"@
    };
    let ctrl_label = if use_color {
        "\u{1b}[1mPress Ctrl-C to stop\u{1b}[0m"@
    } else {
        "Press Ctrl-C to stop"@
    };
    let last_branch = if use_color {
        "\u{1b}[2m\u{2514}\u{2500}\u{1b}[0m"@
    } else {
        "\u{2514}\u{2500}"@
    };
    seq![
        url,
        branch + " "@ + local_label + " "@ + local_target,
        branch + " "@ + expires_label + " "@ + expiry_text,
        last_branch + " "@ + ctrl_label,
    ]
}

/// The stop line: the reason, and the run time when known.
pub open spec fn stopped_line_of(reason: StopReason, duration_seconds: Option<u64>) -> Seq<char> {
    match duration_seconds {
        Some(secs) => reason_text_of(reason) + " (ran for "@ + crate::strutil::dec_digits(
            secs as nat,
        ) + "s)"@,
        None => reason_text_of(reason),
    }
}

impl HumanOutput {
    /// A renderer; whether to color is the caller's finding about its
    /// terminal.
    pub fn new(use_color: bool) -> (r: Self)
        ensures
            r.use_color == use_color,
    {
        Self { use_color }
    }

    /// Builds the banner lines for a tunnel that came up.
    pub fn started_lines(&self, url: &str, local_target: &str, expiry_text: &str) -> (r: Vec<
        String,
    >)
        ensures
            r@.map_values(|line: String| line@) == started_lines_of(
                self.use_color,
                url@,
                local_target@,
                expiry_text@,
            ),
    {
        let branch: &str = if self.use_color {
            "\u{1b}[2m\u{251c}\u{2500}\u{1b}[0m"
        } else {
            "\u{251c}\u{2500}"
        };
        let local_label: &str = if self.use_color {
            "\u{1b}[1mLocal:\u{1b}[0m"
        } else {
            "Local:"
        };
        let expires_label: &str = if self.use_color {
            "\u{1b}[1mExpires:\u{1b}[0m"
        } else {
            "Expires:"
        };
        let ctrl_label: &str = if self.use_color {
            "\u{1b}[1mPress Ctrl-C to stop\u{1b}[0m"
        } else {
            "Press Ctrl-C to stop"
        };
        let last_branch: &str = if self.use_color {
            "\u{1b}[2m\u{2514}\u{2500}\u{1b}[0m"
        } else {
            "\u{2514}\u{2500}"
        };
        let mut lines: Vec<String> = Vec::new();
        lines.push(url.to_owned());
        let mut l2 = branch.to_owned();
        l2.append(" ");
        l2.append(local_label);
        l2.append(" ");
        l2.append(local_target);
        lines.push(l2);
        let mut l3 = branch.to_owned();
        l3.append(" ");
        l3.append(expires_label);
        l3.append(" ");
        l3.append(expiry_text);
        lines.push(l3);
        let mut l4 = last_branch.to_owned();
        l4.append(" ");
        l4.append(ctrl_label);
        lines.push(l4);
        proof {
            assert(lines@.map_values(|line: String| line@) =~= started_lines_of(
                self.use_color,
                url@,
                local_target@,
                expiry_text@,
            ));
        }
        lines
    }

    /// Builds the stop line.
    pub fn stopped_line(&self, reason: StopReason, duration_seconds: Option<u64>) -> (r: String)
        ensures
            r@ == stopped_line_of(reason, duration_seconds),
    {
        let mut s = reason.text();
        match duration_seconds {
            Some(secs) => {
                s.append(" (ran for ");
                let d = u64_to_string(secs);
                s.append(d.as_str());
                s.append("s)");
            },
            None => {},
        }
        s
    }
}

impl Default for HumanOutput {
    /// A renderer without color.
    fn default() -> (r: Self)
        ensures
            r.use_color == false,
    {
        Self { use_color: false }
    }
}

} // verus!
