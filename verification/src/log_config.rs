//! The logging configuration: which log records are written, and how a written record
//! is laid out on its line.
use vstd::prelude::*;
use crate::outside::{
    bold_green, bold_red, json_pretty_print, json_pretty_text, log_level_display, log_level_name,
    no_escape, regex_first_match, regex_first_match_parts,
};
use crate::text::{concat, seq_ends_with, str_ends_with, string_of};

verus! {

/// A log level; `log::Level` has no serde support, so the configuration names levels with this.
#[derive(Debug, Clone, Copy, PartialEq, Eq, Structural)]
pub enum LevelString {
    /// JSON value: `"error"`.
    Error,
    /// JSON value: `"warn"`.
    Warn,
    /// JSON value: `"info"`.
    Info,
    /// JSON value: `"debug"`.
    Debug,
    /// JSON value: `"trace"`.
    Trace,
}

/// The order of `log::Level`: `Error` (1) is the least verbose, `Trace` (5) the most.
pub open spec fn level_rank(l: LevelString) -> int {
    match l {
        LevelString::Error => 1,
        LevelString::Warn => 2,
        LevelString::Info => 3,
        LevelString::Debug => 4,
        LevelString::Trace => 5,
    }
}

impl LevelString {
    /// The level's place in `log::Level`'s order.
    pub fn rank(&self) -> (r: u8)
        ensures
            r == level_rank(*self),
    {
        match self {
            LevelString::Error => 1,
            LevelString::Warn => 2,
            LevelString::Info => 3,
            LevelString::Debug => 4,
            LevelString::Trace => 5,
        }
    }
}

/// Groups of modules by level of abstraction, so that a casual user sees only the
/// application's own high level logs.
#[derive(Debug, Clone, Copy, PartialEq, Eq, Structural, Hash)]
pub enum Group {
    /// The application itself. JSON value: `"tdog"`.
    App,
    /// Libraries written for the application. JSON value: `"tdog_lib"`.
    AppLib,
    /// Any other dependency. JSON value: `"dep"`.
    Dep,
}

/// The JSON key of a group.
pub open spec fn group_key(g: Group) -> Seq<char> {
    match g {
        Group::App => "tdog"@,
        Group::AppLib => "tdog_lib"@,
        Group::Dep => "dep"@,
    }
}

/// The group of a module: a relative source path is the application itself, a path with a
/// `.cargo` component is a dependency from the registry, any other absolute path is a library.
pub open spec fn group_of(is_absolute: bool, has_cargo_component: bool) -> Group {
    if !is_absolute {
        Group::App
    } else if has_cargo_component {
        Group::Dep
    } else {
        Group::AppLib
    }
}

impl Group {
    /// The group of a log record from what its source file path is like.
    pub fn from_path_facts(is_absolute: bool, has_cargo_component: bool) -> (r: Group)
        ensures
            r == group_of(is_absolute, has_cargo_component),
    {
        if !is_absolute {
            return Group::App;
        }
        if has_cargo_component {
            return Group::Dep;
        }
        Group::AppLib
    }

    /// The group's JSON key, which names it in friendly log lines.
    pub fn to_json_key(&self) -> (r: String)
        ensures
            r@ == group_key(*self),
    {
        match self {
            Group::App => string_of("tdog"),
            Group::AppLib => string_of("tdog_lib"),
            Group::Dep => string_of("dep"),
        }
    }
}

/// Whether a `.cargo` component is among the path components (`None` for a component that is
/// not a plain name).
pub open spec fn has_cargo(components: Seq<Option<String>>) -> bool {
    exists|i: int| 0 <= i < components.len() && (#[trigger] components[i] matches Some(c) && c@ == ".cargo"@)
}

/// Whether a `.cargo` component is among the path components.
pub fn has_cargo_component(components: &Vec<Option<String>>) -> (r: bool)
    ensures
        r == has_cargo(components@),
{
    let mut i: usize = 0;
    while i < components.len()
        invariant
            i <= components@.len(),
            forall|k: int| 0 <= k < i ==> !(#[trigger] components@[k] matches Some(c) && c@ == ".cargo"@),
        decreases components@.len() - i,
    {
        match &components[i] {
            Some(c) => {
                if crate::text::str_eq(c.as_str(), ".cargo") {
                    return true;
                }
            },
            None => {},
        }
        i = i + 1;
    }
    false
}

/// The logging configuration.
#[derive(Debug, Clone)]
pub struct LogConfig {
    /// Global log level, for all modules including dependencies.
    pub level: Option<LevelString>,
    /// Log levels of groups of modules: a group listed here overrides the global level, and a
    /// group listed with `None` is not logged. Each group is listed at most once
    /// (`groups_listed_once`).
    pub groups: Vec<(Group, Option<LevelString>)>,
    /// Name modules by their group (`tdog`) rather than by their module path.
    pub friendly_mod_names: bool,
}

/// Whether each group is listed at most once, as in the JSON configuration, where the
/// groups are the keys of an object.
pub open spec fn groups_listed_once(groups: Seq<(Group, Option<LevelString>)>) -> bool {
    forall|i: int, j: int| 0 <= i < groups.len() && 0 <= j < groups.len() && i != j ==> #[trigger] groups[i].0 != #[trigger] groups[j].0
}

/// The setting of group `g` in `groups`: `None` when the group is not listed.
pub open spec fn group_setting(groups: Seq<(Group, Option<LevelString>)>, g: Group) -> Option<Option<LevelString>>
    decreases groups.len(),
{
    if groups.len() == 0 {
        None
    } else if groups[0].0 == g {
        Some(groups[0].1)
    } else {
        group_setting(groups.drop_first(), g)
    }
}

/// Whether a record of level `record` is written when the configured level is `limit`.
pub open spec fn level_allows(record: LevelString, limit: LevelString) -> bool {
    level_rank(record) <= level_rank(limit)
}

/// Whether a record of level `record` from group `g` is written under `config`: the global
/// level decides, unless the group is listed, in which case the group's level decides.
pub open spec fn included(config: LogConfig, record: LevelString, g: Group) -> bool {
    match group_setting(config.groups@, g) {
        Some(Some(limit)) => level_allows(record, limit),
        Some(None) => false,
        None => match config.level {
            Some(limit) => level_allows(record, limit),
            None => false,
        },
    }
}

/// All the levels that appear in `config`: the global one, then those of the groups.
pub open spec fn config_levels(config: LogConfig) -> Seq<LevelString> {
    let global = match config.level {
        Some(l) => seq![l],
        None => Seq::empty(),
    };
    global + group_levels(config.groups@)
}

/// The levels of the listed groups that have one, in order.
pub open spec fn group_levels(groups: Seq<(Group, Option<LevelString>)>) -> Seq<LevelString>
    decreases groups.len(),
{
    if groups.len() == 0 {
        Seq::empty()
    } else {
        let r = group_levels(groups.drop_last());
        match groups.last().1 {
            Some(l) => r.push(l),
            None => r,
        }
    }
}

/// Whether `m` is the most verbose of `levels`, or `None` when there are no levels.
pub open spec fn is_max_level(m: Option<LevelString>, levels: Seq<LevelString>) -> bool {
    match m {
        None => levels.len() == 0,
        Some(x) => levels.contains(x) && forall|i: int| 0 <= i < levels.len() ==> level_rank(#[trigger] levels[i]) <= level_rank(x),
    }
}

/// The setting of `g` among `groups`, looked up from the front.
pub fn find_group(groups: &Vec<(Group, Option<LevelString>)>, g: Group) -> (r: Option<Option<LevelString>>)
    ensures
        r == group_setting(groups@, g),
{
    let mut i: usize = 0;
    assert(groups@.subrange(0, groups@.len() as int) =~= groups@);
    while i < groups.len()
        invariant
            i <= groups@.len(),
            group_setting(groups@, g) == group_setting(groups@.subrange(i as int, groups@.len() as int), g),
        decreases groups@.len() - i,
    {
        let ghost rest = groups@.subrange(i as int, groups@.len() as int);
        assert(rest.drop_first() =~= groups@.subrange(i + 1, groups@.len() as int));
        if groups[i].0 == g {
            return Some(groups[i].1);
        }
        i = i + 1;
    }
    None
}

impl LogConfig {
    /// The most verbose level anywhere in the configuration, or `None` when it names no level.
    pub fn get_max_log_level(&self) -> (r: Option<LevelString>)
        ensures
            is_max_level(r, config_levels(*self)),
    {
        let mut all: Vec<LevelString> = Vec::new();
        if let Some(x) = self.level {
            all.push(x);
        }
        let ghost global = all@;
        let mut i: usize = 0;
        while i < self.groups.len()
            invariant
                i <= self.groups@.len(),
                global == match self.level {
                    Some(l) => seq![l],
                    None => Seq::<LevelString>::empty(),
                },
                all@ == global + group_levels(self.groups@.take(i as int)),
            decreases self.groups@.len() - i,
        {
            let ghost before = self.groups@.take(i as int);
            assert(self.groups@.take(i + 1).drop_last() =~= before);
            assert(self.groups@.take(i + 1).last() == self.groups@[i as int]);
            if let Some(x) = self.groups[i].1 {
                all.push(x);
            }
            assert(all@ =~= global + group_levels(self.groups@.take(i + 1)));
            i = i + 1;
        }
        assert(self.groups@.take(self.groups@.len() as int) =~= self.groups@);
        assert(all@ == config_levels(*self));
        if all.len() == 0 {
            return None;
        }
        let mut best: LevelString = all[0];
        let mut k: usize = 1;
        while k < all.len()
            invariant
                1 <= k <= all@.len(),
                all@.contains(best),
                forall|j: int| 0 <= j < k ==> level_rank(#[trigger] all@[j]) <= level_rank(best),
            decreases all@.len() - k,
        {
            if all[k].rank() > best.rank() {
                best = all[k];
            }
            k = k + 1;
        }
        Some(best)
    }

    /// Short logs for a casual user: the application at `app_level`, its libraries and the
    /// dependencies at `Warn`, modules named by their group.
    pub fn friendly_casual_logs(app_level: LevelString) -> (r: LogConfig)
        ensures
            r.level is None,
            r.groups@ == seq![
                (Group::App, Some(app_level)),
                (Group::AppLib, Some(LevelString::Warn)),
                (Group::Dep, Some(LevelString::Warn)),
            ],
            r.friendly_mod_names,
            groups_listed_once(r.groups@),
    {
        let mut groups: Vec<(Group, Option<LevelString>)> = Vec::new();
        groups.push((Group::App, Some(app_level)));
        groups.push((Group::AppLib, Some(LevelString::Warn)));
        groups.push((Group::Dep, Some(LevelString::Warn)));
        LogConfig { level: None, groups, friendly_mod_names: true }
    }
}

/// The regex of a JSON object at the end of a log message, after a space.
pub open spec fn json_object_at_end_pattern() -> Seq<char> {
    " (\\{\".+?})$"@
}

/// The regex of a JSON array at the end of a log message, after a space.
pub open spec fn json_array_at_end_pattern() -> Seq<char> {
    " (\\[.+?])$"@
}

/// What the matched JSON text `cap` is replaced by: the pretty printed JSON on a new line,
/// or, when it does not parse, the text itself after a space.
pub open spec fn json_replacement(cap: Seq<char>) -> Seq<char> {
    match json_pretty_text(cap) {
        Some(p) => "\n"@ + p,
        None => " "@ + cap,
    }
}

/// `s` with the first match of `pattern` replaced by the JSON replacement of its group.
pub open spec fn replace_json_match(pattern: Seq<char>, s: Seq<char>) -> Seq<char> {
    match regex_first_match(pattern, s) {
        Some(m) => m.0 + json_replacement(m.2) + m.3,
        None => s,
    }
}

/// The message `s` with a JSON object or array at its end pretty printed on the lines below.
pub open spec fn json_at_end_formatted(s: Seq<char>) -> Seq<char> {
    if seq_ends_with(s, "}"@) {
        replace_json_match(json_object_at_end_pattern(), s)
    } else if seq_ends_with(s, "]"@) {
        replace_json_match(json_array_at_end_pattern(), s)
    } else {
        s
    }
}

fn json_object_pattern() -> (r: &'static str)
    ensures
        r@ == json_object_at_end_pattern(),
{
    " (\\{\".+?})$"
}

fn json_array_pattern() -> (r: &'static str)
    ensures
        r@ == json_array_at_end_pattern(),
{
    " (\\[.+?])$"
}

fn replace_json(pattern: &str, s: &str) -> (r: String)
    requires
        pattern@ == json_object_at_end_pattern() || pattern@ == json_array_at_end_pattern(),
    ensures
        r@ == replace_json_match(pattern@, s@),
        regex_first_match(pattern@, s@) matches Some(m) ==> s@ == m.0 + " "@ + m.2 && m.1 == " "@ + m.2
            && m.3.len() == 0,
{
    match regex_first_match_parts(pattern, s) {
        Some((before, _whole, cap, after)) => {
            let pretty = json_pretty_print(cap.as_str());
            json_replaced(before.as_str(), cap.as_str(), after.as_str(), &pretty)
        },
        None => string_of(s),
    }
}

/// The message around a matched JSON text `cap` (`before` it and `after` it), with `cap`
/// replaced by its pretty printed form `pretty` on a new line, or kept after a space when
/// it did not parse (`pretty` is `None`).
pub fn json_replaced(before: &str, cap: &str, after: &str, pretty: &Option<String>) -> (r: String)
    ensures
        r@ == before@ + match *pretty {
            Some(p) => "\n"@ + p@,
            None => " "@ + cap@,
        } + after@,
{
    let replacement = match pretty {
        Some(p) => concat("\n", p.as_str()),
        None => concat(" ", cap),
    };
    let head = concat(before, replacement.as_str());
    concat(head.as_str(), after)
}

/// The match of the trailing JSON pattern in `s`: the object pattern when `s` ends with `}`,
/// the array pattern when it ends with `]`.
pub open spec fn trailing_json_match(s: Seq<char>) -> Option<(Seq<char>, Seq<char>, Seq<char>, Seq<char>)> {
    if seq_ends_with(s, "}"@) {
        regex_first_match(json_object_at_end_pattern(), s)
    } else if seq_ends_with(s, "]"@) {
        regex_first_match(json_array_at_end_pattern(), s)
    } else {
        None
    }
}

/// Pretty prints a JSON object or array at the end of a log message, on the lines below the
/// message; for a human reading the output at a terminal. A message without trailing JSON,
/// or whose trailing JSON does not parse, is left as it is; otherwise the JSON (after a
/// space) is replaced by a new line and its pretty printed form.
pub fn format_json_at_end_of_string(s: &str) -> (r: String)
    ensures
        r@ == json_at_end_formatted(s@),
        trailing_json_match(s@) matches Some(m) ==> s@ == m.0 + " "@ + m.2,
        (trailing_json_match(s@) matches Some(m) ==> json_pretty_text(m.2) is None) ==> r@ == s@,
        trailing_json_match(s@) matches Some(m) ==> (json_pretty_text(m.2) matches Some(p) ==> r@ == m.0 + "\n"@ + p),
{
    if str_ends_with(s, "}") {
        return replace_json(json_object_pattern(), s);
    }
    if str_ends_with(s, "]") {
        return replace_json(json_array_pattern(), s);
    }
    string_of(s)
}

/// Whether a level is shown in red (errors and warnings) rather than green.
pub open spec fn level_is_red(l: LevelString) -> bool {
    l == LevelString::Error || l == LevelString::Warn
}

/// The texts that the level of a log line can be shown as: its name, coloured or not.
pub open spec fn level_text_ok(l: LevelString, t: Seq<char>) -> bool {
    let code: Seq<char> = if level_is_red(l) {
        "\u{1b}[1;31m"@
    } else {
        "\u{1b}[1;32m"@
    };
    t == log_level_name(l) || t == code + log_level_name(l) + "\u{1b}[0m"@
}

/// The level's name in bold, red for errors and warnings and green for the rest.
pub fn level_to_string_color(l: LevelString) -> (r: String)
    ensures
        level_text_ok(l, r@),
{
    let s = log_level_display(l);
    proof {
        reveal_strlit("ERROR");
        reveal_strlit("WARN");
        reveal_strlit("INFO");
        reveal_strlit("DEBUG");
        reveal_strlit("TRACE");
    }
    assert(no_escape(s@));
    match l {
        LevelString::Error | LevelString::Warn => bold_red(s.as_str()),
        _ => bold_green(s.as_str()),
    }
}

/// Writes log records to stdout as configured.
pub struct ConsoleLogger {
    pub config: LogConfig,
    /// The most verbose level in `config`, computed once.
    pub max_level: LevelString,
}

/// The module name shown on a log line.
pub open spec fn mod_key_of(config: LogConfig, g: Group, target: Seq<char>) -> Seq<char> {
    if config.friendly_mod_names {
        match g {
            Group::App | Group::AppLib => group_key(g),
            Group::Dep => target,
        }
    } else {
        target
    }
}

impl ConsoleLogger {
    /// A logger for `config`; `None` when the configuration names no level at all.
    pub fn new(config: LogConfig) -> (r: Option<ConsoleLogger>)
        ensures
            r is None <==> config_levels(config).len() == 0,
            r matches Some(l) ==> l.config == config && is_max_level(Some(l.max_level), config_levels(config)),
    {
        match config.get_max_log_level() {
            Some(max_level) => Some(ConsoleLogger { config, max_level }),
            None => None,
        }
    }

    /// Whether records of level `level` may be written at all.
    pub fn enabled(&self, level: LevelString) -> (r: bool)
        ensures
            r == level_allows(level, self.max_level),
    {
        level.rank() <= self.max_level.rank()
    }

    /// Whether a record of level `level` from group `group` is written.
    pub fn include_in_output(&self, level: LevelString, group: Group) -> (r: bool)
        requires
            self.config.level is Some || self.config.groups@.len() > 0,
        ensures
            r == included(self.config, level, group),
    {
        let config = &self.config;
        let mut inc_log = false;
        if let Some(x) = config.level {
            inc_log = level.rank() <= x.rank();
        }
        if config.groups.len() > 0 {
            if let Some(x) = find_group(&config.groups, group) {
                if let Some(x2) = x {
                    inc_log = level.rank() <= x2.rank();
                } else {
                    inc_log = false;
                }
            }
        } else {
            assert(group_setting(config.groups@, group) is None);
        }
        inc_log
    }

    /// Whether a record of level `level` from group `group` is written to the output: it passes
    /// the quick level check, and the configuration includes it.
    pub fn writes(&self, level: LevelString, group: Group) -> (r: bool)
        requires
            level_allows(level, self.max_level) ==> (self.config.level is Some || self.config.groups@.len() > 0),
        ensures
            r == (level_allows(level, self.max_level) && included(self.config, level, group)),
    {
        self.enabled(level) && self.include_in_output(level, group)
    }

    /// Whether writing a record needs its group: to look up the group's level, or to name the
    /// module by its group.
    pub fn uses_group(&self) -> (r: bool)
        ensures
            r == (self.config.groups@.len() > 0 || self.config.friendly_mod_names),
    {
        self.config.groups.len() > 0 || self.config.friendly_mod_names
    }

    /// The line written for a record: `[time LEVEL module] message`. The message has its
    /// trailing JSON pretty printed when a human reads the output at a terminal.
    pub fn get_line(
        &self,
        timestamp: &str,
        level: LevelString,
        group: Group,
        target: &str,
        message: &str,
        is_human_at_terminal: bool,
    ) -> (r: String)
        ensures
            exists|level_text: Seq<char>|
                level_text_ok(level, level_text) && r@ == "["@ + timestamp@ + " "@ + level_text + " "@
                    + mod_key_of(self.config, group, target@) + "] "@ + (if is_human_at_terminal {
                    json_at_end_formatted(message@)
                } else {
                    message@
                }),
    {
        let mod_key = if self.config.friendly_mod_names {
            match group {
                Group::App | Group::AppLib => group.to_json_key(),
                Group::Dep => string_of(target),
            }
        } else {
            string_of(target)
        };
        let msg = if is_human_at_terminal {
            format_json_at_end_of_string(message)
        } else {
            string_of(message)
        };
        let level_text = level_to_string_color(level);
        let r = concat("[", timestamp);
        let r = concat(r.as_str(), " ");
        let r = concat(r.as_str(), level_text.as_str());
        let r = concat(r.as_str(), " ");
        let r = concat(r.as_str(), mod_key.as_str());
        let r = concat(r.as_str(), "] ");
        let r = concat(r.as_str(), msg.as_str());
        assert(level_text_ok(level, level_text@));
        r
    }
}

/// A group setting that was found is an entry of the list.
pub proof fn lemma_group_setting_is_entry(groups: Seq<(Group, Option<LevelString>)>, g: Group)
    ensures
        group_setting(groups, g) matches Some(x) ==> exists|i: int| 0 <= i < groups.len() && #[trigger] groups[i] == (g, x),
    decreases groups.len(),
{
    if groups.len() > 0 && groups[0].0 != g {
        lemma_group_setting_is_entry(groups.drop_first(), g);
        if let Some(x) = group_setting(groups, g) {
            let i = choose|i: int| 0 <= i < groups.drop_first().len() && #[trigger] groups.drop_first()[i] == (g, x);
            assert(groups[i + 1] == (g, x));
        }
    }
}

/// The level of every entry that has one is among the group levels.
pub proof fn lemma_entry_level_listed(groups: Seq<(Group, Option<LevelString>)>, i: int, l: LevelString)
    requires
        0 <= i < groups.len(),
        groups[i].1 == Some(l),
    ensures
        group_levels(groups).contains(l),
    decreases groups.len(),
{
    let r = group_levels(groups.drop_last());
    if i == groups.len() - 1 {
        assert(group_levels(groups) == r.push(l));
        assert(group_levels(groups)[r.len() as int] == l);
    } else {
        assert(groups.drop_last()[i] == groups[i]);
        lemma_entry_level_listed(groups.drop_last(), i, l);
        let k = choose|k: int| 0 <= k < r.len() && r[k] == l;
        match groups.last().1 {
            Some(m) => {
                assert(group_levels(groups) == r.push(m));
                assert(group_levels(groups)[k] == l);
            },
            None => {},
        }
    }
}

/// The quick level check never hides a record that the configuration writes: a record that
/// `include_in_output` lets through passes `enabled`, whose limit is the most verbose level
/// of the same configuration.
pub proof fn law_included_records_are_enabled(config: LogConfig, max: LevelString, record: LevelString, g: Group)
    requires
        is_max_level(Some(max), config_levels(config)),
        included(config, record, g),
    ensures
        level_allows(record, max),
{
    let levels = config_levels(config);
    let global = match config.level {
        Some(l) => seq![l],
        None => Seq::<LevelString>::empty(),
    };
    lemma_group_setting_is_entry(config.groups@, g);
    match group_setting(config.groups@, g) {
        Some(Some(limit)) => {
            let i = choose|i: int| 0 <= i < config.groups@.len() && #[trigger] config.groups@[i] == (g, Some(limit));
            lemma_entry_level_listed(config.groups@, i, limit);
            let k = choose|k: int| 0 <= k < group_levels(config.groups@).len() && group_levels(config.groups@)[k] == limit;
            assert(levels[global.len() + k] == limit);
        },
        Some(None) => {},
        None => {
            if let Some(limit) = config.level {
                assert(levels[0] == limit);
            }
        },
    }
}

/// With each group listed at most once, a listed group's setting is its entry, and a group
/// that is not listed has no setting (the global level decides for it).
pub proof fn law_listed_group_setting(groups: Seq<(Group, Option<LevelString>)>, g: Group)
    requires
        groups_listed_once(groups),
    ensures
        forall|i: int| 0 <= i < groups.len() && #[trigger] groups[i].0 == g ==> group_setting(groups, g) == Some(groups[i].1),
        (forall|i: int| 0 <= i < groups.len() ==> #[trigger] groups[i].0 != g) ==> group_setting(groups, g) is None,
    decreases groups.len(),
{
    if groups.len() > 0 {
        let t = groups.drop_first();
        assert forall|i: int, j: int| 0 <= i < t.len() && 0 <= j < t.len() && i != j implies #[trigger] t[i].0 != #[trigger] t[j].0 by {
            assert(t[i] == groups[i + 1] && t[j] == groups[j + 1]);
        }
        law_listed_group_setting(t, g);
        assert forall|i: int| 0 <= i < groups.len() && #[trigger] groups[i].0 == g implies group_setting(groups, g) == Some(groups[i].1) by {
            if i > 0 {
                assert(t[i - 1] == groups[i]);
                assert(groups[0].0 != groups[i].0);
            }
        }
        if forall|i: int| 0 <= i < groups.len() ==> #[trigger] groups[i].0 != g {
            assert(groups[0].0 != g);
            assert forall|i: int| 0 <= i < t.len() implies #[trigger] t[i].0 != g by {
                assert(t[i] == groups[i + 1]);
            }
        }
    }
}

/// A group listed without a level is never written, whatever the global level.
pub proof fn law_silenced_group_never_written(config: LogConfig, record: LevelString, g: Group)
    requires
        groups_listed_once(config.groups@),
        exists|i: int| 0 <= i < config.groups@.len() && #[trigger] config.groups@[i] == (g, None::<LevelString>),
    ensures
        !included(config, record, g),
{
    let i = choose|i: int| 0 <= i < config.groups@.len() && #[trigger] config.groups@[i] == (g, None::<LevelString>);
    law_listed_group_setting(config.groups@, g);
    assert(config.groups@[i].0 == g);
}

/// When a logger does not use the group, whether and how a record is written does not
/// depend on its group.
pub proof fn law_group_unused(config: LogConfig, record: LevelString, g1: Group, g2: Group, target: Seq<char>)
    requires
        !(config.groups@.len() > 0 || config.friendly_mod_names),
    ensures
        included(config, record, g1) == included(config, record, g2),
        mod_key_of(config, g1, target) == mod_key_of(config, g2, target),
{
}

} // verus!
