use tdog::log_config::{
    json_replaced, find_group, format_json_at_end_of_string, has_cargo_component, level_to_string_color,
    ConsoleLogger, Group, LevelString, LogConfig,
};

fn casual(l: LevelString) -> LogConfig {
    LogConfig::friendly_casual_logs(l)
}

fn full(level: Option<LevelString>, groups: Vec<(Group, Option<LevelString>)>) -> LogConfig {
    LogConfig { level, groups, friendly_mod_names: false }
}

fn either_colour(t: &str, name: &str, code: &str) -> bool {
    t == name || t == format!("\u{1b}[{}m{}\u{1b}[0m", code, name)
}

#[test]
fn trailing_json_object_is_pretty_printed() {
    assert_eq!(format_json_at_end_of_string(r#"done {"a":1}"#), "done\n{\n    \"a\": 1\n}");
    assert_eq!(
        format_json_at_end_of_string(r#"Applied {"x":[1,2],"y":"z"}"#),
        "Applied\n{\n    \"x\": [\n        1,\n        2\n    ],\n    \"y\": \"z\"\n}"
    );
}

#[test]
fn trailing_json_array_is_pretty_printed() {
    assert_eq!(format_json_at_end_of_string("ids [1,2]"), "ids\n[\n    1,\n    2\n]");
}

#[test]
fn messages_without_valid_trailing_json_are_unchanged() {
    assert_eq!(format_json_at_end_of_string("hello"), "hello");
    assert_eq!(format_json_at_end_of_string(r#"x {"a"}"#), r#"x {"a"}"#);
    // No space before the object: the pattern does not match.
    assert_eq!(format_json_at_end_of_string(r#"x{"a":1}"#), r#"x{"a":1}"#);
    assert_eq!(format_json_at_end_of_string("list [not json]"), "list [not json]");
}

#[test]
fn level_colours() {
    assert!(either_colour(&level_to_string_color(LevelString::Error), "ERROR", "1;31"));
    assert!(either_colour(&level_to_string_color(LevelString::Warn), "WARN", "1;31"));
    assert!(either_colour(&level_to_string_color(LevelString::Info), "INFO", "1;32"));
    assert!(either_colour(&level_to_string_color(LevelString::Debug), "DEBUG", "1;32"));
    assert!(either_colour(&level_to_string_color(LevelString::Trace), "TRACE", "1;32"));
}

#[test]
fn casual_logs_show_only_the_application() {
    let c = casual(LevelString::Info);
    assert_eq!(c.get_max_log_level(), Some(LevelString::Info));
    let l = ConsoleLogger::new(c).unwrap();
    assert_eq!(l.max_level, LevelString::Info);
    assert!(l.include_in_output(LevelString::Info, Group::App));
    assert!(!l.include_in_output(LevelString::Debug, Group::App));
    assert!(!l.include_in_output(LevelString::Info, Group::Dep));
    assert!(l.include_in_output(LevelString::Warn, Group::Dep));
    assert!(l.include_in_output(LevelString::Error, Group::AppLib));
    assert!(l.enabled(LevelString::Info));
    assert!(!l.enabled(LevelString::Debug));
}

#[test]
fn max_level_is_the_most_verbose() {
    assert_eq!(casual(LevelString::Error).get_max_log_level(), Some(LevelString::Warn));
    assert_eq!(casual(LevelString::Trace).get_max_log_level(), Some(LevelString::Trace));
    assert_eq!(full(Some(LevelString::Error), vec![(Group::Dep, Some(LevelString::Debug))]).get_max_log_level(), Some(LevelString::Debug));
    assert_eq!(full(None, vec![(Group::Dep, None)]).get_max_log_level(), None);
    assert_eq!(full(None, vec![]).get_max_log_level(), None);
}

#[test]
fn a_config_without_levels_gives_no_logger() {
    assert!(ConsoleLogger::new(full(None, vec![])).is_none());
    assert!(ConsoleLogger::new(full(None, vec![(Group::App, None)])).is_none());
}

#[test]
fn group_overrides_global_level() {
    let l = ConsoleLogger::new(full(Some(LevelString::Info), vec![(Group::Dep, None), (Group::AppLib, Some(LevelString::Error))])).unwrap();
    assert!(l.include_in_output(LevelString::Info, Group::App));
    assert!(!l.include_in_output(LevelString::Debug, Group::App));
    // A group listed without a level is never written.
    assert!(!l.include_in_output(LevelString::Error, Group::Dep));
    assert!(!l.include_in_output(LevelString::Warn, Group::AppLib));
    assert!(l.include_in_output(LevelString::Error, Group::AppLib));
}

#[test]
fn find_group_reads_the_first_entry() {
    let g = vec![(Group::App, Some(LevelString::Info)), (Group::Dep, None)];
    assert_eq!(find_group(&g, Group::App), Some(Some(LevelString::Info)));
    assert_eq!(find_group(&g, Group::Dep), Some(None));
    assert_eq!(find_group(&g, Group::AppLib), None);
}

#[test]
fn groups_from_source_paths() {
    assert_eq!(Group::from_path_facts(false, false), Group::App);
    assert_eq!(Group::from_path_facts(false, true), Group::App);
    assert_eq!(Group::from_path_facts(true, true), Group::Dep);
    assert_eq!(Group::from_path_facts(true, false), Group::AppLib);
    let comps = vec![None, Some("Users".to_string()), Some(".cargo".to_string()), Some("registry".to_string())];
    assert!(has_cargo_component(&comps));
    assert!(!has_cargo_component(&vec![None, Some("Dev".to_string()), Some("cargo".to_string())]));
    assert_eq!(Group::App.to_json_key(), "tdog");
    assert_eq!(Group::AppLib.to_json_key(), "tdog_lib");
    assert_eq!(Group::Dep.to_json_key(), "dep");
    assert_eq!(LevelString::Error.rank(), 1);
    assert_eq!(LevelString::Trace.rank(), 5);
}

#[test]
fn log_line_layout() {
    let l = ConsoleLogger::new(casual(LevelString::Info)).unwrap();
    let line = l.get_line("2021-01-24 19:06:26.256", LevelString::Info, Group::App, "tdog_core::watch", "started", false);
    assert!(
        line == "[2021-01-24 19:06:26.256 INFO tdog] started"
            || line == "[2021-01-24 19:06:26.256 \u{1b}[1;32mINFO\u{1b}[0m tdog] started"
    );
    let dep = l.get_line("t", LevelString::Warn, Group::Dep, "hyper::proto", r#"x {"a":1}"#, false);
    assert!(dep.ends_with(r#" hyper::proto] x {"a":1}"#));
    let human = l.get_line("t", LevelString::Warn, Group::AppLib, "unicon::x", r#"x {"a":1}"#, true);
    assert!(human.ends_with(" tdog_lib] x\n{\n    \"a\": 1\n}"));
    let plain = ConsoleLogger::new(full(Some(LevelString::Info), vec![])).unwrap();
    let line = plain.get_line("t", LevelString::Info, Group::App, "tdog_core::watch", "m", false);
    assert!(line.ends_with(" tdog_core::watch] m"));
}

#[test]
fn matched_json_is_replaced_in_place() {
    assert_eq!(json_replaced("done", "{\"a\":1}", "", &Some("{\n    \"a\": 1\n}".to_string())), "done\n{\n    \"a\": 1\n}");
    assert_eq!(json_replaced("x", "{\"a\"}", "!", &None), "x {\"a\"}!");
}

#[test]
fn write_decision_and_group_use() {
    let l = ConsoleLogger::new(casual(LevelString::Info)).unwrap();
    assert!(l.uses_group());
    assert!(l.writes(LevelString::Info, Group::App));
    assert!(!l.writes(LevelString::Debug, Group::App));
    assert!(!l.writes(LevelString::Info, Group::Dep));
    let plain = ConsoleLogger::new(full(Some(LevelString::Warn), vec![])).unwrap();
    assert!(!plain.uses_group());
    assert!(plain.writes(LevelString::Error, Group::Dep));
    assert!(!plain.writes(LevelString::Info, Group::App));
}
