use tdog::config::{
    config_source, default_log, from_native_args, position, Cmd, Config, ConfigSource, Download,
    Engine, FromAPI, LevelStringOrConfig, Options, RunMode, SQLiteCreate, ServerAddr, ServerCreate,
    Stripe,
};
use tdog::log_config::{Group, LevelString, LogConfig};

fn stripe() -> FromAPI {
    FromAPI::Stripe(Stripe { secret_key: "123".to_string(), max_requests_per_second: None, exit_on_429: false, http: None })
}

fn options(watch: bool) -> Options {
    Options { watch, apply_events_after_one_shot_dl: true, poll_freq_ms: None }
}

fn config_to(to: Engine) -> Config {
    Config { cmd: Cmd::Download(Download { from: stripe(), to, options: options(true) }), log: default_log() }
}

fn schema_name(c: &Config) -> Option<String> {
    match &c.cmd {
        Cmd::Download(dl) => match &dl.to {
            Engine::SQLite(_) => None,
            Engine::MySQL(x) => x.schema_name.clone(),
            Engine::Postgres(x) => x.schema_name.clone(),
        },
    }
}

fn args(a: &[&str]) -> Vec<String> {
    a.iter().map(|s| s.to_string()).collect()
}

#[test]
fn parse_json_set_defaults() {
    // MySQL with no `schema_name`: a default is set.
    let mut v = config_to(Engine::MySQL(ServerCreate {
        addr: Some(ServerAddr::Socket { socket: "/tmp/mysql.sock".to_string() }),
        user: Some("root".to_string()),
        db_name: None,
        schema_name: None,
        pass: Some("my-secret-pw".to_string()),
        tls: None,
    }));
    v.set_defaults();
    assert!(schema_name(&v).is_some());
}

#[test]
fn set_defaults_names_the_schema_after_the_source() {
    let mut v = config_to(Engine::Postgres(ServerCreate {
        addr: Some(ServerAddr::Ip { ip: "127.0.0.1".to_string(), port: 5432 }),
        user: None,
        db_name: None,
        schema_name: None,
        pass: None,
        tls: None,
    }));
    v.set_defaults();
    assert_eq!(schema_name(&v), Some("stripe".to_string()));
}

#[test]
fn set_defaults_keeps_a_given_schema() {
    let mut v = config_to(Engine::MySQL(ServerCreate {
        addr: None,
        user: None,
        db_name: None,
        schema_name: Some("stripe_acc_x".to_string()),
        pass: None,
        tls: None,
    }));
    v.set_defaults();
    assert_eq!(schema_name(&v), Some("stripe_acc_x".to_string()));
    v.set_defaults();
    assert_eq!(schema_name(&v), Some("stripe_acc_x".to_string()));
}

#[test]
fn set_defaults_leaves_sqlite_alone() {
    let mut v = config_to(Engine::SQLite(SQLiteCreate { file: "abc".to_string() }));
    v.set_defaults();
    match &v.cmd {
        Cmd::Download(dl) => match &dl.to {
            Engine::SQLite(x) => assert_eq!(x.file, "abc"),
            _ => panic!("the target changed"),
        },
    }
}

#[test]
fn run_mode_follows_the_watch_option() {
    let c = config_to(Engine::SQLite(SQLiteCreate { file: "abc".to_string() }));
    assert_eq!(c.cmd.run_mode(), RunMode::Watch);
    let c = Cmd::Download(Download {
        from: stripe(),
        to: Engine::SQLite(SQLiteCreate { file: "abc".to_string() }),
        options: options(false),
    });
    assert_eq!(c.run_mode(), RunMode::DownloadAll);
}

#[test]
fn poll_frequency_defaults_to_400ms() {
    let mut dl = Download { from: stripe(), to: Engine::SQLite(SQLiteCreate { file: "a".to_string() }), options: options(true) };
    assert_eq!(dl.poll_freq_ms(), 400);
    dl.options.poll_freq_ms = Some(1000);
    assert_eq!(dl.poll_freq_ms(), 1000);
    assert_eq!(dl.get_stripe_from().secret_key, "123");
}

#[test]
fn option_defaults() {
    let o = Options::default();
    assert!(!o.watch);
    assert!(o.poll_freq_ms.is_none());
    assert!(!tdog::config::default_exit_on_429());
    assert!(tdog::config::default_bool_true());
    assert!(!tdog::config::default_bool_false());
}

#[test]
fn casual_log_config_by_default() {
    let c = config_to(Engine::SQLite(SQLiteCreate { file: "abc".to_string() }));
    let l = c.get_log_config();
    assert!(l.level.is_none());
    assert!(l.friendly_mod_names);
    assert_eq!(
        l.groups,
        vec![
            (Group::App, Some(LevelString::Info)),
            (Group::AppLib, Some(LevelString::Warn)),
            (Group::Dep, Some(LevelString::Warn)),
        ]
    );
}

#[test]
fn full_log_config_is_kept() {
    let mut c = config_to(Engine::SQLite(SQLiteCreate { file: "abc".to_string() }));
    c.log = LevelStringOrConfig::Config(LogConfig {
        level: Some(LevelString::Debug),
        groups: vec![(Group::Dep, None)],
        friendly_mod_names: false,
    });
    let l = c.get_log_config();
    assert_eq!(l.level, Some(LevelString::Debug));
    assert_eq!(l.groups, vec![(Group::Dep, None)]);
    assert!(!l.friendly_mod_names);
}

#[test]
fn native_args_give_a_sqlite_download() {
    let n = from_native_args(&args(&["tdog", "--stripe-key", "abc", "--target", "db.sqlite", "--watch"])).unwrap();
    assert_eq!(n.stripe_key, "abc");
    assert_eq!(n.target, "db.sqlite");
    assert!(n.watch);
    let n = from_native_args(&args(&["tdog", "--target", "db.sqlite", "--stripe-key", "abc"])).unwrap();
    assert_eq!(n.stripe_key, "abc");
    assert!(!n.watch);
}

#[test]
fn native_args_need_both_values() {
    assert!(from_native_args(&args(&["tdog", "--stripe-key", "abc"])).is_none());
    assert!(from_native_args(&args(&["tdog", "--target", "db.sqlite", "--stripe-key"])).is_none());
    assert!(from_native_args(&args(&[])).is_none());
}

#[test]
fn position_finds_the_first_match() {
    let a = args(&["a", "b", "a"]);
    assert_eq!(position(&a, "a"), Some(0));
    assert_eq!(position(&a, "b"), Some(1));
    assert_eq!(position(&a, "c"), None);
}

#[test]
fn config_source_from_arguments() {
    match config_source(&args(&["tdog", "--json", "{}"])) {
        ConfigSource::Json(s) => assert_eq!(s, "{}"),
        _ => panic!("expected --json"),
    }
    match config_source(&args(&["tdog", "--json-file", "/tmp/c.json"])) {
        ConfigSource::JsonFile(s) => assert_eq!(s, "/tmp/c.json"),
        _ => panic!("expected --json-file"),
    }
    assert!(matches!(config_source(&args(&["tdog", "-v"])), ConfigSource::Version));
    assert!(matches!(config_source(&args(&["tdog", "--version", "--json", "{}"])), ConfigSource::Version));
    // A flag without its value is passed over.
    assert!(matches!(config_source(&args(&["tdog", "--json"])), ConfigSource::Missing));
    assert!(matches!(config_source(&args(&["tdog"])), ConfigSource::Missing));
}

#[test]
fn a_mysql_db_name_is_refused() {
    let server = |db_name: Option<&str>| ServerCreate {
        addr: None,
        user: None,
        db_name: db_name.map(|s| s.to_string()),
        schema_name: None,
        pass: None,
        tls: None,
    };
    assert!(config_to(Engine::MySQL(server(Some("db")))).target_refused());
    assert!(!config_to(Engine::MySQL(server(None))).target_refused());
    assert!(!config_to(Engine::Postgres(server(Some("db")))).target_refused());
    assert!(!config_to(Engine::SQLite(SQLiteCreate { file: "a".to_string() })).target_refused());
}
