//! The calls that this library makes into outside crates, each behind one trusted
//! wrapper whose contract is believed, not proved.
use vstd::prelude::*;
use crate::log_config::{LevelString, json_array_at_end_pattern, json_object_at_end_pattern};
use crate::text::{seq_ends_with, seq_starts_with};

verus! {

/// `serde_json::Value`: a JSON value that the library carries without reading it.
#[verifier::external_type_specification]
#[verifier::external_body]
pub struct ExJsonValue(serde_json::Value);

/// `serde_json::Value`'s `clone`, which `derive(Clone)` writes: the copy is the same value.
pub assume_specification[ <serde_json::Value as Clone>::clone ](v: &serde_json::Value) -> (r: serde_json::Value)
    ensures
        r == *v,
;

/// The text that `humantime::format_duration` renders for a duration of `secs` whole seconds.
pub uninterp spec fn humantime_text(secs: u64) -> Seq<char>;

/// Calls `humantime::format_duration` on `secs` whole seconds and renders it with `Display`
/// (such as `1h 1m 1s`). The contract claims only that the text is a function of `secs`;
/// the text itself is not stated.
#[verifier::external_body]
pub(crate) fn format_duration_secs(secs: u64) -> (r: String)
    ensures
        r@ == humantime_text(secs),
{
    humantime::format_duration(std::time::Duration::from_secs(secs)).to_string()
}

/// The name that `log::Level`'s `Display` prints for a level.
pub open spec fn log_level_name(l: LevelString) -> Seq<char> {
    match l {
        LevelString::Error => "ERROR"@,
        LevelString::Warn => "WARN"@,
        LevelString::Info => "INFO"@,
        LevelString::Debug => "DEBUG"@,
        LevelString::Trace => "TRACE"@,
    }
}

/// Converts `l` to the matching `log::Level` and renders it with `log`'s `Display`, which
/// prints the upper-case level name (`log::Level::as_str`).
#[verifier::external_body]
pub(crate) fn log_level_display(l: LevelString) -> (r: String)
    ensures
        r@ == log_level_name(l),
{
    let level = match l {
        LevelString::Error => log::Level::Error,
        LevelString::Warn => log::Level::Warn,
        LevelString::Info => log::Level::Info,
        LevelString::Debug => log::Level::Debug,
        LevelString::Trace => log::Level::Trace,
    };
    level.to_string()
}

/// Whether `s` holds no escape character (so no terminal control sequence).
pub open spec fn no_escape(s: Seq<char>) -> bool {
    forall|i: int| 0 <= i < s.len() ==> s[i] != '\u{1b}'
}

/// Calls `colored`'s `bold().red()` on `text` and renders it with `Display`. Whether the
/// terminal codes are written depends on the environment (`NO_COLOR`, `CLICOLOR`, whether
/// stdout is a terminal), so the contract states both outcomes: the plain text, or the
/// text between the bold red code and the reset code.
#[verifier::external_body]
pub(crate) fn bold_red(text: &str) -> (r: String)
    requires
        no_escape(text@),
    ensures
        r@ == text@ || r@ == "\u{1b}[1;31m"@ + text@ + "\u{1b}[0m"@,
{
    colored::Colorize::red(colored::Colorize::bold(text)).to_string()
}

/// Calls `colored`'s `bold().green()` on `text` and renders it with `Display`; as for
/// `bold_red`, the contract states both outcomes.
#[verifier::external_body]
pub(crate) fn bold_green(text: &str) -> (r: String)
    requires
        no_escape(text@),
    ensures
        r@ == text@ || r@ == "\u{1b}[1;32m"@ + text@ + "\u{1b}[0m"@,
{
    colored::Colorize::green(colored::Colorize::bold(text)).to_string()
}

/// What `regex::Regex::captures` finds of the regex `pattern` in `s`: the text before the
/// first match, the match, its first group and the text after the match.
pub uninterp spec fn regex_first_match(pattern: Seq<char>, s: Seq<char>) -> Option<
    (Seq<char>, Seq<char>, Seq<char>, Seq<char>),
>;

/// Compiles `pattern` with `regex::Regex::new` and calls `captures` on `s`; returns the text
/// before the first match, the match, its first group and the text after the match. The
/// contract names the result and claims what the two patterns of `log_config` (a space,
/// then a group running to the end of the text, `$`) make of a match: the three pieces put
/// together give `s` back, the match is a space followed by the group, nothing follows it,
/// and the group holds no newline (`.` does not match one) and starts and ends with the
/// pattern's brackets. Which match is found first is not stated.
/// `pattern` must compile and have a first group that takes part in every match: the
/// callers pass those two patterns.
#[verifier::external_body]
pub(crate) fn regex_first_match_parts(pattern: &str, s: &str) -> (r: Option<(String, String, String, String)>)
    requires
        pattern@ == json_object_at_end_pattern() || pattern@ == json_array_at_end_pattern(),
    ensures
        r matches Some(p) ==> s@ == p.0@ + p.1@ + p.3@,
        r matches Some(p) ==> p.1@ == " "@ + p.2@ && p.3@.len() == 0,
        r matches Some(p) ==> forall|i: int| 0 <= i < p.2@.len() ==> p.2@[i] != '\n',
        r matches Some(p) ==> (pattern@ == json_object_at_end_pattern() ==> seq_starts_with(p.2@, "{\""@)
            && seq_ends_with(p.2@, "}"@)),
        r matches Some(p) ==> (pattern@ == json_array_at_end_pattern() ==> seq_starts_with(p.2@, "["@)
            && seq_ends_with(p.2@, "]"@)),
        r matches Some(p) ==> regex_first_match(pattern@, s@) == Some((p.0@, p.1@, p.2@, p.3@)),
        r is None ==> regex_first_match(pattern@, s@) is None,
{
    let re = regex::Regex::new(pattern).unwrap();
    re.captures(s).map(|c| {
        let m = c.get(0).unwrap();
        let g = c.get(1).unwrap();
        (s[..m.start()].to_string(), m.as_str().to_string(), g.as_str().to_string(), s[m.end()..].to_string())
    })
}

/// The text that `serde_json` prints, with a four-space indent, for the JSON value in `s`,
/// or `None` when `s` does not parse as JSON.
pub uninterp spec fn json_pretty_text(s: Seq<char>) -> Option<Seq<char>>;

/// Parses `s` with `serde_json::from_str` into a `serde_json::Value` and prints it back with
/// `serde_json`'s `PrettyFormatter` with a four-space indent; `None` when `s` does not parse.
/// The contract names the result.
#[verifier::external_body]
pub(crate) fn json_pretty_print(s: &str) -> (r: Option<String>)
    ensures
        r matches Some(t) ==> json_pretty_text(s@) == Some(t@),
        r is None ==> json_pretty_text(s@) is None,
{
    let v: serde_json::Value = match serde_json::from_str(s) {
        Ok(v) => v,
        Err(_) => return None,
    };
    let formatter = serde_json::ser::PrettyFormatter::with_indent(b"    ");
    let mut ser = serde_json::Serializer::with_formatter(Vec::new(), formatter);
    serde::Serialize::serialize(&v, &mut ser).unwrap();
    Some(String::from_utf8(ser.into_inner()).unwrap())
}

/// What `chrono::NaiveDateTime::parse_from_str` reads from `s` with the strftime format `fmt`,
/// as seconds since the Unix epoch and nanoseconds within the second; `None` when it fails.
pub uninterp spec fn chrono_parse(s: Seq<char>, fmt: Seq<char>) -> Option<(i64, u32)>;

/// Calls `chrono::NaiveDateTime::parse_from_str(s, fmt)` and reads the date-time as UTC:
/// seconds since the Unix epoch and nanoseconds within the second. The contract names the
/// result; which strings parse is not stated.
#[verifier::external_body]
pub(crate) fn naive_datetime_parse(s: &str, fmt: &str) -> (r: Option<(i64, u32)>)
    ensures
        r matches Some(v) ==> chrono_parse(s@, fmt@) == Some(v),
        r is None ==> chrono_parse(s@, fmt@) is None,
{
    match chrono::NaiveDateTime::parse_from_str(s, fmt) {
        Ok(d) => Some((d.and_utc().timestamp(), d.and_utc().timestamp_subsec_nanos())),
        Err(_) => None,
    }
}

} // verus!
