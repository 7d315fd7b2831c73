//! The command and its configuration: what to download from, where to write it, and how
//! the command line is read.
use vstd::prelude::*;
use crate::log_config::{Group, LevelString, LogConfig};
use crate::text::str_eq;

verus! {

/// Where the data comes from.
#[derive(Debug, Clone)]
pub enum FromAPI {
    /// JSON value: `"stripe"`.
    Stripe(Stripe),
}

/// A GitHub repository.
#[derive(Debug, Clone)]
pub struct GithubRepo {
    pub user: String,
    pub repo: String,
}

/// The Stripe account to download.
#[derive(Debug, Clone)]
pub struct Stripe {
    pub secret_key: String,
    pub max_requests_per_second: Option<u32>,
    /// Exit when the API answers 429 (too many requests); defaults to `false`.
    pub exit_on_429: bool,
    /// HTTP settings for the connections to Stripe only.
    pub http: Option<HttpOpts>,
}

/// The default of `Stripe::exit_on_429`.
pub fn default_exit_on_429() -> (r: bool)
    ensures
        !r,
{
    false
}

/// A SQLite target file.
#[derive(Debug, Clone)]
pub struct SQLite {
    pub file: String,
}

/// An Excel target.
#[derive(Debug, Clone)]
pub struct Excel {}

/// A MySQL target.
#[derive(Debug, Clone)]
pub struct MySQL {}

/// How the download runs.
#[derive(Debug, Clone)]
pub struct Options {
    /// Keep running and poll for new events; defaults to `false`.
    pub watch: bool,
    /// After a one-shot download, apply the events up to now; defaults to `true` when the
    /// key is missing from the JSON configuration.
    pub apply_events_after_one_shot_dl: bool,
    /// How often to poll for events, in milliseconds.
    pub poll_freq_ms: Option<u32>,
}

impl Default for Options {
    fn default() -> (r: Options)
        ensures
            !r.watch,
            !r.apply_events_after_one_shot_dl,
            r.poll_freq_ms is None,
    {
        Options { watch: false, apply_events_after_one_shot_dl: false, poll_freq_ms: None }
    }
}

/// The default of a missing boolean that defaults to `false`.
pub fn default_bool_false() -> (r: bool)
    ensures
        !r,
{
    false
}

/// The default of a missing boolean that defaults to `true`.
pub fn default_bool_true() -> (r: bool)
    ensures
        r,
{
    true
}

/// HTTP settings.
#[derive(Debug, Clone)]
pub struct HttpOpts {
    /// Roughly the `http_proxy` environment variable.
    pub proxy: Option<HttpProxyOpts>,
}

impl Default for HttpOpts {
    fn default() -> (r: HttpOpts)
        ensures
            r.proxy is None,
    {
        HttpOpts { proxy: None }
    }
}

/// The HTTP proxy to use.
#[derive(Debug, Clone)]
pub struct HttpProxyOpts {
    pub url: Option<String>,
}

impl Default for HttpProxyOpts {
    fn default() -> (r: HttpProxyOpts)
        ensures
            r.url is None,
    {
        HttpProxyOpts { url: None }
    }
}

/// A SQLite database file to write to.
#[derive(Debug, Clone)]
pub struct SQLiteCreate {
    pub file: String,
}

/// How a database server is reached.
#[derive(Debug, Clone)]
pub enum ServerAddr {
    /// By IP address and port.
    Ip { ip: String, port: u16 },
    /// By a Unix socket path.
    Socket { socket: String },
}

/// TLS settings of a database connection.
#[derive(Debug, Clone)]
pub struct ServerTls {
    /// The certificate authority's certificate file.
    pub ca_cert_file: String,
}

/// A MySQL or Postgres database target.
#[derive(Debug, Clone)]
pub struct ServerCreate {
    pub addr: Option<ServerAddr>,
    pub user: Option<String>,
    pub db_name: Option<String>,
    pub schema_name: Option<String>,
    pub pass: Option<String>,
    /// Connect over TLS, checking the server against this certificate authority.
    pub tls: Option<ServerTls>,
}

/// The database to write to.
#[derive(Debug, Clone)]
pub enum Engine {
    /// JSON value: `"sqlite"`.
    SQLite(SQLiteCreate),
    /// JSON value: `"mysql"`.
    MySQL(ServerCreate),
    /// JSON value: `"postgres"`.
    Postgres(ServerCreate),
}

/// A download from an API to a database.
#[derive(Debug, Clone)]
pub struct Download {
    pub from: FromAPI,
    pub to: Engine,
    pub options: Options,
}

/// How often the event list is polled when no interval is configured, in milliseconds.
pub const DEFAULT_POLL_FREQ_MS: u64 = 400;

/// Whether the download runs once or keeps polling.
#[derive(Debug, Clone, Copy, PartialEq, Eq, Structural)]
pub enum RunMode {
    Watch,
    DownloadAll,
}

impl Download {
    /// The polling interval in milliseconds: the configured one, else 400.
    pub fn poll_freq_ms(&self) -> (r: u64)
        ensures
            r == match self.options.poll_freq_ms {
                Some(x) => x as u64,
                None => DEFAULT_POLL_FREQ_MS,
            },
    {
        match self.options.poll_freq_ms {
            Some(x) => x as u64,
            None => DEFAULT_POLL_FREQ_MS,
        }
    }

    /// The Stripe account that the download reads.
    pub fn get_stripe_from(&self) -> (r: &Stripe)
        ensures
            self.from == FromAPI::Stripe(*r),
    {
        match &self.from {
            FromAPI::Stripe(s) => s,
        }
    }
}

/// A command. An enum so that each interface (CLI, web) maps onto it.
#[derive(Debug, Clone)]
pub enum Cmd {
    /// JSON value: `"download"`, with the arguments under `args`.
    Download(Download),
}

impl Cmd {
    /// How `run` runs the command: watching when the options say so, else one download.
    pub fn run_mode(&self) -> (r: RunMode)
        ensures
            r == match *self {
                Cmd::Download(dl) => if dl.options.watch {
                    RunMode::Watch
                } else {
                    RunMode::DownloadAll
                },
            },
    {
        match self {
            Cmd::Download(dl) => {
                if dl.options.watch {
                    RunMode::Watch
                } else {
                    RunMode::DownloadAll
                }
            },
        }
    }
}

/// The log setting: either a level for casual use, or a full logging configuration.
#[derive(Debug, Clone)]
pub enum LevelStringOrConfig {
    /// Short logs at this level for the application's own high level operations.
    AppLevel(LevelString),
    /// Full, detailed logs to debug a remote installation.
    Config(LogConfig),
}

/// The default log setting: `info` for the application.
pub fn default_log() -> (r: LevelStringOrConfig)
    ensures
        r == LevelStringOrConfig::AppLevel(LevelString::Info),
{
    LevelStringOrConfig::AppLevel(LevelString::Info)
}

/// The command-line configuration.
#[derive(Debug, Clone)]
pub struct Config {
    pub cmd: Cmd,
    pub log: LevelStringOrConfig,
}

/// The schema name that a target gets when none is configured.
pub open spec fn schema_name_default() -> Seq<char> {
    "stripe"@
}

/// A database target with its schema name defaulted to `default`.
pub open spec fn engine_with_default_schema(e: Engine, default: String) -> Engine {
    match e {
        Engine::SQLite(x) => Engine::SQLite(x),
        Engine::MySQL(x) => Engine::MySQL(
            ServerCreate {
                schema_name: if x.schema_name is Some {
                    x.schema_name
                } else {
                    Some(default)
                },
                ..x
            },
        ),
        Engine::Postgres(x) => Engine::Postgres(
            ServerCreate {
                schema_name: if x.schema_name is Some {
                    x.schema_name
                } else {
                    Some(default)
                },
                ..x
            },
        ),
    }
}

/// Whether a target is refused: MySQL is configured by `schema_name`, not `db_name`.
pub open spec fn engine_refused(e: Engine) -> bool {
    e matches Engine::MySQL(x) && x.db_name is Some
}

/// The same logging configuration, entry by entry.
pub fn copy_log_config(c: &LogConfig) -> (r: LogConfig)
    ensures
        r.level == c.level,
        r.groups@ == c.groups@,
        r.friendly_mod_names == c.friendly_mod_names,
{
    let mut groups: Vec<(Group, Option<LevelString>)> = Vec::new();
    let mut i: usize = 0;
    while i < c.groups.len()
        invariant
            i <= c.groups@.len(),
            groups@ == c.groups@.take(i as int),
        decreases c.groups@.len() - i,
    {
        groups.push(c.groups[i]);
        i = i + 1;
        assert(groups@ =~= c.groups@.take(i as int));
    }
    assert(c.groups@.take(c.groups@.len() as int) =~= c.groups@);
    LogConfig { level: c.level, groups, friendly_mod_names: c.friendly_mod_names }
}

impl Config {
    /// Whether the configuration is refused before anything runs: a MySQL target is named by
    /// `schema_name`, so one that gives a `db_name` is refused.
    pub fn target_refused(&self) -> (r: bool)
        ensures
            r == engine_refused(match self.cmd {
                Cmd::Download(dl) => dl.to,
            }),
    {
        match &self.cmd {
            Cmd::Download(dl) => match &dl.to {
                Engine::MySQL(x) => x.db_name.is_some(),
                _ => false,
            },
        }
    }

    /// Fills in the keys that depend on other keys: a MySQL or Postgres target without a
    /// schema name gets the source's name (`stripe`).
    pub fn set_defaults(&mut self)
        requires
            !engine_refused(match old(self).cmd {
                Cmd::Download(dl) => dl.to,
            }),
        ensures
            final(self).log == old(self).log,
            match (final(self).cmd, old(self).cmd) {
                (Cmd::Download(n), Cmd::Download(o)) => n.from == o.from && n.options == o.options
                    && exists|d: String| d@ == schema_name_default() && n.to == engine_with_default_schema(o.to, d),
            },
    {
        match &mut self.cmd {
            Cmd::Download(dl) => {
                let schema_name_default: String = match dl.from {
                    FromAPI::Stripe(_) => "stripe".to_owned(),
                };
                let ghost d = schema_name_default;
                match &mut dl.to {
                    Engine::SQLite(_) => {},
                    Engine::MySQL(x) => {
                        if x.schema_name.is_none() {
                            x.schema_name = Some(schema_name_default);
                        }
                    },
                    Engine::Postgres(x) => {
                        if x.schema_name.is_none() {
                            x.schema_name = Some(schema_name_default);
                        }
                    },
                }
            },
        }
    }

    /// The logging configuration that the log setting stands for.
    pub fn get_log_config(&self) -> (r: LogConfig)
        ensures
            match self.log {
                LevelStringOrConfig::AppLevel(l) => r.level is None && r.friendly_mod_names && r.groups@
                    == seq![
                    (Group::App, Some(l)),
                    (Group::AppLib, Some(LevelString::Warn)),
                    (Group::Dep, Some(LevelString::Warn)),
                ],
                LevelStringOrConfig::Config(c) => r.level == c.level && r.groups@ == c.groups@
                    && r.friendly_mod_names == c.friendly_mod_names,
            },
    {
        match &self.log {
            LevelStringOrConfig::AppLevel(app_level) => LogConfig::friendly_casual_logs(*app_level),
            LevelStringOrConfig::Config(c) => copy_log_config(c),
        }
    }
}

/// Setting the defaults is idempotent: a target whose schema name was defaulted keeps it when
/// the defaults are set again, and a schema name that was given is never replaced.
pub proof fn law_default_schema_idempotent(e: Engine, d: String)
    ensures
        engine_with_default_schema(engine_with_default_schema(e, d), d) == engine_with_default_schema(e, d),
        (e matches Engine::MySQL(x) && x.schema_name is Some) ==> engine_with_default_schema(e, d) == e,
        (e matches Engine::Postgres(x) && x.schema_name is Some) ==> engine_with_default_schema(e, d) == e,
{
}

/// The values that the short command line `--stripe-key KEY --target FILE [--watch]` gives.
#[derive(Debug, Clone)]
pub struct NativeArgs {
    pub stripe_key: String,
    pub target: String,
    pub watch: bool,
}

/// The index of the first argument equal to `x`.
pub open spec fn first_index(args: Seq<String>, x: Seq<char>) -> Option<int>
    decreases args.len(),
{
    if args.len() == 0 {
        None
    } else if args[0]@ == x {
        Some(0)
    } else {
        match first_index(args.drop_first(), x) {
            Some(i) => Some(i + 1),
            None => None,
        }
    }
}

/// A found index is an index of the arguments, and the argument there is `x`.
pub proof fn lemma_first_index_bounds(args: Seq<String>, x: Seq<char>)
    ensures
        first_index(args, x) matches Some(i) ==> 0 <= i < args.len() && args[i]@ == x,
    decreases args.len(),
{
    if args.len() > 0 {
        lemma_first_index_bounds(args.drop_first(), x);
    }
}

/// The index of the first argument equal to `x`.
pub fn position(args: &Vec<String>, x: &str) -> (r: Option<usize>)
    ensures
        r matches Some(i) ==> first_index(args@, x@) == Some(i as int),
        r is None ==> first_index(args@, x@) is None,
{
    let mut i: usize = 0;
    assert(args@.subrange(0, args@.len() as int) =~= args@);
    while i < args.len()
        invariant
            i <= args@.len(),
            first_index(args@, x@) == match first_index(args@.subrange(i as int, args@.len() as int), x@) {
                Some(j) => Some(j + i),
                None => None,
            },
        decreases args@.len() - i,
    {
        let ghost rest = args@.subrange(i as int, args@.len() as int);
        assert(rest.drop_first() =~= args@.subrange(i + 1, args@.len() as int));
        if str_eq(args[i].as_str(), x) {
            return Some(i);
        }
        i = i + 1;
    }
    None
}

/// What the short command line gives: the argument after `--stripe-key`, the argument after
/// `--target`, and whether `--watch` is there; `None` unless both values are there.
pub open spec fn native_args_of(args: Seq<String>) -> Option<(String, String, bool)> {
    match (first_index(args, "--stripe-key"@), first_index(args, "--target"@)) {
        (Some(f), Some(t)) => if f + 1 < args.len() && t + 1 < args.len() {
            Some((args[f + 1], args[t + 1], first_index(args, "--watch"@) is Some))
        } else {
            None
        },
        _ => None,
    }
}

/// Reads the short command line: `--stripe-key KEY --target FILE [--watch]`.
pub fn from_native_args(args: &Vec<String>) -> (r: Option<NativeArgs>)
    ensures
        match native_args_of(args@) {
            Some((k, t, w)) => r matches Some(n) && n.stripe_key == k && n.target == t && n.watch == w,
            None => r is None,
        },
{
    let from = position(args, "--stripe-key");
    let to = position(args, "--target");
    let watch = position(args, "--watch").is_some();
    proof {
        lemma_first_index_bounds(args@, "--stripe-key"@);
        lemma_first_index_bounds(args@, "--target"@);
    }
    match (from, to) {
        (Some(from_i), Some(to_i)) => {
            let n: usize = args.len();
            if from_i + 1 < n && to_i + 1 < n {
                Some(NativeArgs { stripe_key: args[from_i + 1].clone(), target: args[to_i + 1].clone(), watch })
            } else {
                None
            }
        },
        _ => None,
    }
}

/// Where the JSON configuration comes from.
#[derive(Debug, Clone)]
pub enum ConfigSource {
    /// The JSON text itself, after `--json`.
    Json(String),
    /// The path of a JSON file, after `--json-file`.
    JsonFile(String),
    /// `--version` or `-v`: print the version and exit.
    Version,
    /// No configuration was given.
    Missing,
}

/// The configuration source that the arguments from index `i` on give: the first `--json`
/// or `--json-file` that has a value after it, or the first `--version`/`-v`.
pub open spec fn source_from(args: Seq<String>, i: int) -> ConfigSource
    decreases args.len() - i,
{
    if i < 0 || i >= args.len() {
        ConfigSource::Missing
    } else if args[i]@ == "--json"@ && i + 1 < args.len() {
        ConfigSource::Json(args[i + 1])
    } else if args[i]@ == "--json-file"@ && i + 1 < args.len() {
        ConfigSource::JsonFile(args[i + 1])
    } else if args[i]@ == "--version"@ || args[i]@ == "-v"@ {
        ConfigSource::Version
    } else {
        source_from(args, i + 1)
    }
}

/// Reads where the JSON configuration comes from: `--json TEXT`, `--json-file PATH`, or
/// `--version`/`-v`, whichever comes first.
pub fn config_source(args: &Vec<String>) -> (r: ConfigSource)
    ensures
        r == source_from(args@, 0),
{
    let mut i: usize = 0;
    while i < args.len()
        invariant
            i <= args@.len(),
            source_from(args@, 0) == source_from(args@, i as int),
        decreases args@.len() - i,
    {
        let x = args[i].as_str();
        if str_eq(x, "--json") && i + 1 < args.len() {
            return ConfigSource::Json(args[i + 1].clone());
        }
        if str_eq(x, "--json-file") && i + 1 < args.len() {
            return ConfigSource::JsonFile(args[i + 1].clone());
        }
        if str_eq(x, "--version") || str_eq(x, "-v") {
            return ConfigSource::Version;
        }
        i = i + 1;
    }
    ConfigSource::Missing
}

} // verus!
