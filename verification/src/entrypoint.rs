//! The run-loop logic around supervised proxy processes: deciding which
//! metadata sets drive a launch, reclassifying child log lines into
//! leveled, targeted events, and detecting the failure phrase that forces a
//! corrective stop.

use vstd::prelude::*;
use vstd::string::StrSliceExecFns;
use vstd::string::StringExecFns;

use crate::backend::Backend;
use crate::config::Config;
use crate::metadata::Metadata;
use crate::config::spec_env_to_label;
use crate::text::str_eq;

verus! {

/// Severity level of one reclassified log line.
#[derive(Clone, Copy, Debug, PartialEq, Eq, Structural)]
pub enum Level {
    Error,
    Warn,
    Info,
    Debug,
    Trace,
}

/// The level an all-caps severity token names.
pub open spec fn spec_level_of_token(s: Seq<char>) -> Option<Level> {
    if s == "ERROR"@ {
        Some(Level::Error)
    } else if s == "WARN"@ {
        Some(Level::Warn)
    } else if s == "INFO"@ {
        Some(Level::Info)
    } else if s == "DEBUG"@ {
        Some(Level::Debug)
    } else if s == "TRACE"@ {
        Some(Level::Trace)
    } else {
        None
    }
}

fn level_of_token(s: &str) -> (r: Option<Level>)
    ensures
        r == spec_level_of_token(s@),
{
    if str_eq(s, "ERROR") {
        Some(Level::Error)
    } else if str_eq(s, "WARN") {
        Some(Level::Warn)
    } else if str_eq(s, "INFO") {
        Some(Level::Info)
    } else if str_eq(s, "DEBUG") {
        Some(Level::Debug)
    } else if str_eq(s, "TRACE") {
        Some(Level::Trace)
    } else {
        None
    }
}

/// An uppercase letter, as the severity token is made of.
pub open spec fn spec_is_upper(c: char) -> bool {
    65 <= c as u32 <= 90
}

/// Whitespace as the line grammar's separator counts it.
pub open spec fn spec_is_line_ws(c: char) -> bool {
    c == ' ' || 9 <= c as u32 <= 13
}

/// A character of the target token: alphanumeric, colon, underscore or
/// hyphen.
pub open spec fn spec_is_target_char(c: char) -> bool {
    ||| 65 <= c as u32 <= 90
    ||| 97 <= c as u32 <= 122
    ||| 48 <= c as u32 <= 57
    ||| c == ':'
    ||| c == '_'
    ||| c == '-'
}

/// The end of the run of uppercase letters starting at `i`.
pub open spec fn spec_upper_end(s: Seq<char>, i: int) -> int
    decreases s.len() - i,
    when 0 <= i <= s.len()
{
    if i < s.len() && spec_is_upper(s[i]) {
        spec_upper_end(s, i + 1)
    } else {
        i
    }
}

/// The end of the run of separator whitespace starting at `i`.
pub open spec fn spec_ws_end(s: Seq<char>, i: int) -> int
    decreases s.len() - i,
    when 0 <= i <= s.len()
{
    if i < s.len() && spec_is_line_ws(s[i]) {
        spec_ws_end(s, i + 1)
    } else {
        i
    }
}

/// The end of the run of target characters starting at `i`.
pub open spec fn spec_target_end(s: Seq<char>, i: int) -> int
    decreases s.len() - i,
    when 0 <= i <= s.len()
{
    if i < s.len() && spec_is_target_char(s[i]) {
        spec_target_end(s, i + 1)
    } else {
        i
    }
}

/// The fixed line grammar of a child's log output: a leading all-caps
/// severity token, whitespace, a target token, whitespace, a `>`
/// separator, whitespace, and a non-empty free-text message. A line that
/// does not fit yields nothing and is passed through verbatim by the
/// caller.
pub open spec fn spec_parse_line(s: Seq<char>) -> Option<(Level, Seq<char>, Seq<char>)> {
    let te = spec_upper_end(s, 0);
    match spec_level_of_token(s.subrange(0, te)) {
        None => None,
        Some(level) => {
            let w1 = spec_ws_end(s, te);
            if w1 == te {
                None
            } else {
                let tg = spec_target_end(s, w1);
                if tg == w1 {
                    None
                } else {
                    let w2 = spec_ws_end(s, tg);
                    if w2 == tg || w2 == s.len() || s[w2] != '>' {
                        None
                    } else {
                        let w3 = spec_ws_end(s, w2 + 1);
                        if w3 == w2 + 1 || w3 == s.len() {
                            None
                        } else {
                            Some((level, s.subrange(w1, tg), s.subrange(w3, s.len() as int)))
                        }
                    }
                }
            }
        },
    }
}

/// One structured event derived from one line of a child's output.
pub struct LogEvent {
    pub level: Level,
    pub target: String,
    pub message: String,
}

fn upper_end(s: &str, i: usize) -> (r: usize)
    requires
        i <= s@.len(),
    ensures
        r == spec_upper_end(s@, i as int),
        i <= r <= s@.len(),
{
    let n = s.unicode_len();
    let mut j = i;
    while j < n
        invariant
            i <= j <= n,
            n == s@.len(),
            spec_upper_end(s@, i as int) == spec_upper_end(s@, j as int),
        ensures
            j == n || !spec_is_upper(s@[j as int]),
        decreases n - j,
    {
        let c = s.get_char(j);
        let cv = c as u32;
        if !(65 <= cv && cv <= 90) {
            break;
        }
        j += 1;
    }
    j
}

fn ws_end(s: &str, i: usize) -> (r: usize)
    requires
        i <= s@.len(),
    ensures
        r == spec_ws_end(s@, i as int),
        i <= r <= s@.len(),
{
    let n = s.unicode_len();
    let mut j = i;
    while j < n
        invariant
            i <= j <= n,
            n == s@.len(),
            spec_ws_end(s@, i as int) == spec_ws_end(s@, j as int),
        ensures
            j == n || !spec_is_line_ws(s@[j as int]),
        decreases n - j,
    {
        let c = s.get_char(j);
        let cv = c as u32;
        if !(c == ' ' || (9 <= cv && cv <= 13)) {
            break;
        }
        j += 1;
    }
    j
}

fn target_end(s: &str, i: usize) -> (r: usize)
    requires
        i <= s@.len(),
    ensures
        r == spec_target_end(s@, i as int),
        i <= r <= s@.len(),
{
    let n = s.unicode_len();
    let mut j = i;
    while j < n
        invariant
            i <= j <= n,
            n == s@.len(),
            spec_target_end(s@, i as int) == spec_target_end(s@, j as int),
        ensures
            j == n || !spec_is_target_char(s@[j as int]),
        decreases n - j,
    {
        let c = s.get_char(j);
        let cv = c as u32;
        if !((65 <= cv && cv <= 90) || (97 <= cv && cv <= 122) || (48 <= cv && cv <= 57) || c == ':'
            || c == '_' || c == '-') {
            break;
        }
        j += 1;
    }
    j
}

/// Parse one line of a child's output against the fixed line grammar.
/// `None` means the line does not conform and must be emitted verbatim
/// rather than dropped.
pub fn parse_line(line: &str) -> (r: Option<LogEvent>)
    ensures
        match r {
            Some(e) => spec_parse_line(line@) == Some((e.level, e.target@, e.message@)),
            None => spec_parse_line(line@) is None,
        },
{
    let n = line.unicode_len();
    let te = upper_end(line, 0);
    let token = line.substring_char(0, te);
    let level = match level_of_token(token) {
        Some(l) => l,
        None => {
            return None;
        },
    };
    let w1 = ws_end(line, te);
    if w1 == te {
        return None;
    }
    let tg = target_end(line, w1);
    if tg == w1 {
        return None;
    }
    let w2 = ws_end(line, tg);
    if w2 == tg || w2 == n {
        return None;
    }
    if line.get_char(w2) != '>' {
        return None;
    }
    let w3 = ws_end(line, w2 + 1);
    if w3 == w2 + 1 || w3 == n {
        return None;
    }
    let target = String::from_str(line.substring_char(w1, tg));
    let message = String::from_str(line.substring_char(w3, n));
    Some(LogEvent { level, target, message })
}

/// The target a reclassified event is re-emitted under: the owning group,
/// a `::` separator, and the original target.
pub fn wrapped_target(group: &str, target: &str) -> (r: String)
    ensures
        r@ == group@ + "::"@ + target@,
{
    String::from_str(group).concat("::").concat(target)
}

/// Whether a reclassified event signals that the proxy could not stop its
/// workload gracefully, requiring a forced stop.
pub open spec fn spec_requires_force_stop(level: Level, message: Seq<char>) -> bool {
    level == Level::Warn && message
        == "Failed to stop server, no more suitable stopping method to use"@
}

/// Handle one reclassified event: on the fixed failure phrase, at warning
/// level, force-stop the group's workload through the control plane —
/// exactly one stop call per such event, and none otherwise. This is the
/// system's sole automatic corrective action.
pub fn handle_log<B: Backend>(backend: &B, group: &String, level: Level, message: &String) -> (stopped:
    bool)
    ensures
        stopped == spec_requires_force_stop(level, message@),
{
    if level == Level::Warn && str_eq(
        message.as_str(),
        "Failed to stop server, no more suitable stopping method to use",
    ) {
        backend.stop(group);
        true
    } else {
        false
    }
}

/// The metadata sets one run derives configurations from: the discovered
/// ones, or, when discovery found none, exactly one set mapped from the
/// legacy environment schema.
pub fn effective_label_sets(discovered: Vec<Metadata>, environment: &Metadata) -> (r: Vec<
    Metadata,
>)
    ensures
        discovered@.len() > 0 ==> r == discovered,
        discovered@.len() == 0 ==> r@.len() == 1 && r@[0]@ =~= spec_env_to_label(environment@),
{
    if discovered.len() > 0 {
        discovered
    } else {
        let mut sets: Vec<Metadata> = Vec::new();
        sets.push(Config::environment_to_label(environment));
        sets
    }
}

} // verus!
