//! Settings of the server: logging, and the database it keeps its records in.
use vstd::prelude::*;

use url::Url;

verus! {

#[verifier::external_type_specification]
#[verifier::external_body]
pub struct ExLevelFilter(log::LevelFilter);

#[verifier::external_type_specification]
#[verifier::external_body]
pub struct ExLevel(tracing::Level);

#[verifier::external_type_specification]
#[verifier::external_body]
pub struct ExUrl(Url);

#[verifier::external_type_specification]
#[verifier::external_body]
pub struct ExUrlParseError(url::ParseError);

/// What `log::LevelFilter::as_str` returns for a filter.
pub uninterp spec fn level_filter_name(f: log::LevelFilter) -> Seq<char>;

/// What `tracing::Level::as_str` returns for a level.
pub uninterp spec fn level_name(l: tracing::Level) -> Seq<char>;

/// The names `log` gives its level filters, from the most quiet.
pub open spec fn filter_names() -> Seq<Seq<char>> {
    seq!["OFF"@, "ERROR"@, "WARN"@, "INFO"@, "DEBUG"@, "TRACE"@]
}

/// `log::LevelFilter::from_str`. It matches the name without regard to case
/// against `OFF`, `ERROR`, `WARN`, `INFO`, `DEBUG` and `TRACE`; the filter it
/// returns for one of those names, as written there, has that name.
#[verifier::external_body]
fn parse_level_filter(name: &str) -> (r: Option<log::LevelFilter>)
    ensures
        filter_names().contains(name@) ==> r is Some && level_filter_name(r->0) == name@,
{
    match name.parse::<log::LevelFilter>() {
        Ok(f) => Some(f),
        Err(_) => None,
    }
}

/// `tracing::Level::from_str`. For `ERROR`, `WARN`, `INFO`, `DEBUG` and
/// `TRACE` it returns the level that `as_str` names so.
#[verifier::external_body]
fn parse_level(name: &str) -> (r: Option<tracing::Level>)
    ensures
        filter_names().drop_first().contains(name@) ==> r is Some && level_name(r->0) == name@,
{
    match name.parse::<tracing::Level>() {
        Ok(l) => Some(l),
        Err(_) => None,
    }
}

/// How much is logged.
#[derive(Debug, Clone, Copy, PartialEq, Eq)]
pub enum LogLevel {
    Off,
    Error,
    Warn,
    Info,
    Debug,
    Trace,
}

impl LogLevel {
    /// The name `log` and `tracing` give this level.
    pub open spec fn spec_name(&self) -> Seq<char> {
        match self {
            LogLevel::Off => "OFF"@,
            LogLevel::Error => "ERROR"@,
            LogLevel::Warn => "WARN"@,
            LogLevel::Info => "INFO"@,
            LogLevel::Debug => "DEBUG"@,
            LogLevel::Trace => "TRACE"@,
        }
    }

    fn name(&self) -> (r: &'static str)
        ensures
            r@ == self.spec_name(),
            filter_names().contains(r@),
            *self != LogLevel::Off ==> filter_names().drop_first().contains(r@),
    {
        proof {
            reveal_strlit("OFF");
            reveal_strlit("ERROR");
            reveal_strlit("WARN");
            reveal_strlit("INFO");
            reveal_strlit("DEBUG");
            reveal_strlit("TRACE");
            assert(filter_names()[0] == "OFF"@);
            assert(filter_names()[1] == "ERROR"@);
            assert(filter_names()[2] == "WARN"@);
            assert(filter_names()[3] == "INFO"@);
            assert(filter_names()[4] == "DEBUG"@);
            assert(filter_names()[5] == "TRACE"@);
            let rest = filter_names().drop_first();
            assert(rest[0] == "ERROR"@);
            assert(rest[1] == "WARN"@);
            assert(rest[2] == "INFO"@);
            assert(rest[3] == "DEBUG"@);
            assert(rest[4] == "TRACE"@);
        }
        match self {
            LogLevel::Off => "OFF",
            LogLevel::Error => "ERROR",
            LogLevel::Warn => "WARN",
            LogLevel::Info => "INFO",
            LogLevel::Debug => "DEBUG",
            LogLevel::Trace => "TRACE",
        }
    }

    /// The level filter of `log` of the same name.
    pub fn as_filter(&self) -> (r: log::LevelFilter)
        ensures
            level_filter_name(r) == self.spec_name(),
    {
        parse_level_filter(self.name()).unwrap()
    }

    /// The level of `tracing` of the same name; `Off` has none.
    pub fn try_as_level(&self) -> (r: Option<tracing::Level>)
        ensures
            r is Some == (*self != LogLevel::Off),
            r is Some ==> level_name(r->0) == self.spec_name(),
    {
        match self {
            LogLevel::Off => None,
            _ => {
                let n = self.name();
                Some(parse_level(n).unwrap())
            },
        }
    }

    /// The level used when none is configured: `Debug` in a debug build, `Warn` otherwise.
    pub fn default_for_build(debug: bool) -> (r: Self)
        ensures
            r == (if debug {
                LogLevel::Debug
            } else {
                LogLevel::Warn
            }),
    {
        if debug {
            LogLevel::Debug
        } else {
            LogLevel::Warn
        }
    }
}

/// How log lines are laid out.
#[derive(Debug, Clone, Copy, PartialEq, Eq)]
pub enum LogFormat {
    Full,
    Compact,
    Pretty,
    Json,
}

/// Where log lines go.
#[derive(Debug, Clone, Copy, PartialEq, Eq)]
pub enum LogStream {
    StdOut,
    StdErr,
}

/// The kind of database the records are kept in.
#[derive(Debug, Clone, Copy, PartialEq, Eq)]
pub enum DatabaseDriver {
    Sqlite,
    Postgres,
    Mysql,
}

impl DatabaseDriver {
    /// The name of the driver, as it is written in a database URL's scheme.
    pub open spec fn spec_name(&self) -> Seq<char> {
        match self {
            DatabaseDriver::Sqlite => "sqlite"@,
            DatabaseDriver::Postgres => "postgres"@,
            DatabaseDriver::Mysql => "mysql"@,
        }
    }

    /// The name of the driver.
    pub fn name(&self) -> (r: &'static str)
        ensures
            r@ == self.spec_name(),
    {
        match self {
            DatabaseDriver::Sqlite => "sqlite",
            DatabaseDriver::Postgres => "postgres",
            DatabaseDriver::Mysql => "mysql",
        }
    }
}

/// How the server logs.
#[derive(Debug, Clone, Copy, PartialEq, Eq)]
pub struct LogConfig {
    pub level: LogLevel,
    pub stream: LogStream,
    pub format: LogFormat,
}

impl LogConfig {
    /// The logging used when none is configured: debug level and pretty lines in
    /// a debug build, warnings and compact lines otherwise, to standard output.
    pub fn default_for_build(debug: bool) -> (r: Self)
        ensures
            r.level == (if debug {
                LogLevel::Debug
            } else {
                LogLevel::Warn
            }),
            r.stream == LogStream::StdOut,
            r.format == (if debug {
                LogFormat::Pretty
            } else {
                LogFormat::Compact
            }),
    {
        LogConfig {
            level: LogLevel::default_for_build(debug),
            stream: LogStream::StdOut,
            format: if debug {
                LogFormat::Pretty
            } else {
                LogFormat::Compact
            },
        }
    }
}

/// The text of a URL, as `Url::as_str` returns it.
pub uninterp spec fn url_text(u: Url) -> Seq<char>;

/// The text of what `Url::parse` makes of a string, when it parses.
pub uninterp spec fn url_parsed(s: Seq<char>) -> Option<Seq<char>>;

/// The text of a URL after `Url::set_scheme`, when it succeeds.
pub uninterp spec fn url_with_scheme(t: Seq<char>, scheme: Seq<char>) -> Option<Seq<char>>;

/// The text of a URL after `Url::set_host`, when it succeeds.
pub uninterp spec fn url_with_host(t: Seq<char>, host: Option<Seq<char>>) -> Option<Seq<char>>;

/// The text of a URL after `Url::set_port`, when it succeeds.
pub uninterp spec fn url_with_port(t: Seq<char>, port: Option<u16>) -> Option<Seq<char>>;

/// The text of a URL after `Url::set_username`, when it succeeds.
pub uninterp spec fn url_with_username(t: Seq<char>, username: Seq<char>) -> Option<Seq<char>>;

/// The text of a URL after `Url::set_password`, when it succeeds.
pub uninterp spec fn url_with_password(t: Seq<char>, password: Option<Seq<char>>) -> Option<
    Seq<char>,
>;

/// The text of a URL after `Url::set_path`.
pub uninterp spec fn url_with_path(t: Seq<char>, path: Seq<char>) -> Seq<char>;

/// The text of a URL after `Url::set_query`.
pub uninterp spec fn url_with_query(t: Seq<char>, query: Option<Seq<char>>) -> Seq<char>;

/// The characters of an optional string.
pub open spec fn opt_text(s: Option<&str>) -> Option<Seq<char>> {
    match s {
        Some(s) => Some(s@),
        None => None,
    }
}

/// `Url::clone`: the same URL.
#[verifier::external_body]
fn url_clone(u: &Url) -> (r: Url)
    ensures
        url_text(r) == url_text(*u),
{
    u.clone()
}

/// `Url::parse`. What the error holds is not stated.
#[verifier::external_body]
fn url_parse(s: &str) -> (r: Result<Url, url::ParseError>)
    ensures
        r is Ok == url_parsed(s@) is Some,
        r matches Ok(u) ==> url_text(u) == url_parsed(s@)->0,
{
    Url::parse(s)
}

/// `Url::set_scheme`. After a failure the URL is not stated.
#[verifier::external_body]
fn url_set_scheme(u: &mut Url, scheme: &str) -> (r: Result<(), ()>)
    ensures
        r is Ok == url_with_scheme(url_text(*old(u)), scheme@) is Some,
        r is Ok ==> url_text(*final(u)) == url_with_scheme(url_text(*old(u)), scheme@)->0,
{
    u.set_scheme(scheme)
}

/// `Url::set_host`. After a failure the URL, and what the error holds, are not stated.
#[verifier::external_body]
fn url_set_host(u: &mut Url, host: Option<&str>) -> (r: Result<(), url::ParseError>)
    ensures
        r is Ok == url_with_host(url_text(*old(u)), opt_text(host)) is Some,
        r is Ok ==> url_text(*final(u)) == url_with_host(url_text(*old(u)), opt_text(host))->0,
{
    u.set_host(host)
}

/// `Url::set_port`. After a failure the URL is not stated.
#[verifier::external_body]
fn url_set_port(u: &mut Url, port: Option<u16>) -> (r: Result<(), ()>)
    ensures
        r is Ok == url_with_port(url_text(*old(u)), port) is Some,
        r is Ok ==> url_text(*final(u)) == url_with_port(url_text(*old(u)), port)->0,
{
    u.set_port(port)
}

/// `Url::set_username`. After a failure the URL is not stated.
#[verifier::external_body]
fn url_set_username(u: &mut Url, username: &str) -> (r: Result<(), ()>)
    ensures
        r is Ok == url_with_username(url_text(*old(u)), username@) is Some,
        r is Ok ==> url_text(*final(u)) == url_with_username(url_text(*old(u)), username@)->0,
{
    u.set_username(username)
}

/// `Url::set_password`. After a failure the URL is not stated.
#[verifier::external_body]
fn url_set_password(u: &mut Url, password: Option<&str>) -> (r: Result<(), ()>)
    ensures
        r is Ok == url_with_password(url_text(*old(u)), opt_text(password)) is Some,
        r is Ok ==> url_text(*final(u)) == url_with_password(url_text(*old(u)), opt_text(password))->0,
{
    u.set_password(password)
}

/// `Url::set_path`.
#[verifier::external_body]
fn url_set_path(u: &mut Url, path: &str)
    ensures
        url_text(*final(u)) == url_with_path(url_text(*old(u)), path@),
{
    u.set_path(path)
}

/// `Url::set_query`.
#[verifier::external_body]
fn url_set_query(u: &mut Url, query: Option<&str>)
    ensures
        url_text(*final(u)) == url_with_query(url_text(*old(u)), opt_text(query)),
{
    u.set_query(query)
}

/// Why a database URL could not be built: the step that failed.
#[derive(Debug)]
pub enum UrlParseError {
    Scheme,
    Host(url::ParseError),
    Port,
    Username,
    Password,
}

/// The step a database URL failed at, without what the error holds.
#[derive(Debug, Clone, Copy, PartialEq, Eq)]
pub enum UrlStep {
    Scheme,
    Host,
    Port,
    Username,
    Password,
}

/// The step an error names.
pub open spec fn step_of(e: UrlParseError) -> UrlStep {
    match e {
        UrlParseError::Scheme => UrlStep::Scheme,
        UrlParseError::Host(_) => UrlStep::Host,
        UrlParseError::Port => UrlStep::Port,
        UrlParseError::Username => UrlStep::Username,
        UrlParseError::Password => UrlStep::Password,
    }
}

/// Where the records are kept and how the database connection logs.
#[derive(Debug)]
pub struct DatabaseConfig {
    pub driver: DatabaseDriver,
    pub host: String,
    pub port: Option<u16>,
    pub username: String,
    pub password: Option<String>,
    pub name: String,
    pub params: Option<String>,
    pub url: Option<Url>,
    pub log_level: LogLevel,
    pub slow_log_level: LogLevel,
    pub slow_threshold: u64,
}

/// The text of an optional string field.
pub open spec fn opt_string_text(s: Option<String>) -> Option<Seq<char>> {
    match s {
        Some(s) => Some(s@),
        None => None,
    }
}

impl DatabaseConfig {
    /// The database used when none is configured: PostgreSQL on `localhost`,
    /// database `minil`, no user, port, password, parameters or URL; statements
    /// logged at debug level, slow ones (past one second) as warnings.
    pub fn default_config() -> (r: Self)
        ensures
            r.driver == DatabaseDriver::Postgres,
            r.host@ == "localhost"@,
            r.port is None,
            r.username@ == Seq::<char>::empty(),
            r.password is None,
            r.name@ == "minil"@,
            r.params is None,
            r.url is None,
            r.log_level == LogLevel::Debug,
            r.slow_log_level == LogLevel::Warn,
            r.slow_threshold == 1,
    {
        DatabaseConfig {
            driver: DatabaseDriver::Postgres,
            host: "localhost".to_owned(),
            port: None,
            username: String::new(),
            password: None,
            name: "minil".to_owned(),
            params: None,
            url: None,
            log_level: LogLevel::Debug,
            slow_log_level: LogLevel::Warn,
            slow_threshold: 1,
        }
    }

    /// The host put in a built URL: `localhost` stands for the in-memory host.
    pub open spec fn url_host(&self) -> Seq<char> {
        if self.host@ == ":memory:"@ {
            "localhost"@
        } else {
            self.host@
        }
    }

    /// The text of the database URL, or the step that fails. A configured URL is
    /// taken as it is; an in-memory SQLite database is `sqlite::memory:`; otherwise
    /// the URL `sqlite:///:memory:` gets the driver's scheme, the host, port, user,
    /// password, the database name as its path and the parameters as its query.
    pub open spec fn spec_url(&self) -> Result<Seq<char>, UrlStep> {
        match self.url {
            Some(u) => Ok(url_text(u)),
            None => if self.driver == DatabaseDriver::Sqlite && self.host@ == ":memory:"@ {
                match url_parsed("sqlite::memory:"@) {
                    Some(t) => Ok(t),
                    None => Err(UrlStep::Host),
                }
            } else {
                match url_parsed("sqlite:///:memory:"@) {
                    None => Err(UrlStep::Host),
                    Some(t0) => match url_with_scheme(t0, self.driver.spec_name()) {
                        None => Err(UrlStep::Scheme),
                        Some(t1) => match url_with_host(t1, Some(self.url_host())) {
                            None => Err(UrlStep::Host),
                            Some(t2) => match url_with_port(t2, self.port) {
                                None => Err(UrlStep::Port),
                                Some(t3) => match url_with_username(t3, self.username@) {
                                    None => Err(UrlStep::Username),
                                    Some(t4) => match url_with_password(
                                        t4,
                                        opt_string_text(self.password),
                                    ) {
                                        None => Err(UrlStep::Password),
                                        Some(t5) => Ok(
                                            url_with_query(
                                                url_with_path(t5, self.name@),
                                                opt_string_text(self.params),
                                            ),
                                        ),
                                    },
                                },
                            },
                        },
                    },
                }
            },
        }
    }

    /// Builds the URL to connect to the database with.
    pub fn try_to_url(&self) -> (r: Result<Url, UrlParseError>)
        ensures
            match (r, self.spec_url()) {
                (Ok(u), Ok(t)) => url_text(u) == t,
                (Err(e), Err(step)) => step_of(e) == step,
                _ => false,
            },
    {
        match &self.url {
            Some(url) => Ok(url_clone(url)),
            None => {
                let memory = ":memory:".to_owned();
                proof {
                    reveal_strlit(":memory:");
                    reveal_strlit("sqlite::memory:");
                    reveal_strlit("sqlite:///:memory:");
                    reveal_strlit("localhost");
                }
                let in_memory = self.host == memory;
                match self.driver {
                    DatabaseDriver::Sqlite if in_memory => {
                        match url_parse("sqlite::memory:") {
                            Ok(u) => Ok(u),
                            Err(e) => Err(UrlParseError::Host(e)),
                        }
                    },
                    _ => {
                        let mut url = match url_parse("sqlite:///:memory:") {
                            Ok(u) => u,
                            Err(e) => {
                                return Err(UrlParseError::Host(e));
                            },
                        };
                        if url_set_scheme(&mut url, self.driver.name()).is_err() {
                            return Err(UrlParseError::Scheme);
                        }
                        let host = if in_memory {
                            "localhost"
                        } else {
                            self.host.as_str()
                        };
                        match url_set_host(&mut url, Some(host)) {
                            Ok(()) => {},
                            Err(e) => {
                                return Err(UrlParseError::Host(e));
                            },
                        }
                        if url_set_port(&mut url, self.port).is_err() {
                            return Err(UrlParseError::Port);
                        }
                        if url_set_username(&mut url, self.username.as_str()).is_err() {
                            return Err(UrlParseError::Username);
                        }
                        let password = match &self.password {
                            Some(p) => Some(p.as_str()),
                            None => None,
                        };
                        if url_set_password(&mut url, password).is_err() {
                            return Err(UrlParseError::Password);
                        }
                        url_set_path(&mut url, self.name.as_str());
                        let params = match &self.params {
                            Some(p) => Some(p.as_str()),
                            None => None,
                        };
                        url_set_query(&mut url, params);
                        Ok(url)
                    },
                }
            },
        }
    }
}

/// The settings of the server that come from its environment.
#[derive(Debug)]
pub struct AppConfig {
    pub log: LogConfig,
    pub database: DatabaseConfig,
}

impl AppConfig {
    /// The settings used when none are configured.
    pub fn default_for_build(debug: bool) -> (r: Self)
        ensures
            r.log.level == (if debug {
                LogLevel::Debug
            } else {
                LogLevel::Warn
            }),
            r.log.stream == LogStream::StdOut,
            r.log.format == (if debug {
                LogFormat::Pretty
            } else {
                LogFormat::Compact
            }),
            r.database.driver == DatabaseDriver::Postgres,
            r.database.host@ == "localhost"@,
            r.database.name@ == "minil"@,
            r.database.url is None,
    {
        AppConfig { log: LogConfig::default_for_build(debug), database: DatabaseConfig::default_config() }
    }
}

} // verus!
