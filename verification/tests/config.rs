use minil::config::AppConfig;
use minil::config::DatabaseConfig;
use minil::config::DatabaseDriver;
use minil::config::LogConfig;
use minil::config::LogFormat;
use minil::config::LogLevel;
use minil::config::LogStream;
use minil::config::UrlParseError;

#[test]
fn levels_map_to_log_and_tracing() {
    assert_eq!(LogLevel::Off.as_filter(), log::LevelFilter::Off);
    assert_eq!(LogLevel::Error.as_filter(), log::LevelFilter::Error);
    assert_eq!(LogLevel::Warn.as_filter(), log::LevelFilter::Warn);
    assert_eq!(LogLevel::Info.as_filter(), log::LevelFilter::Info);
    assert_eq!(LogLevel::Debug.as_filter(), log::LevelFilter::Debug);
    assert_eq!(LogLevel::Trace.as_filter(), log::LevelFilter::Trace);
    assert_eq!(LogLevel::Off.try_as_level(), None);
    assert_eq!(LogLevel::Error.try_as_level(), Some(tracing::Level::ERROR));
    assert_eq!(LogLevel::Warn.try_as_level(), Some(tracing::Level::WARN));
    assert_eq!(LogLevel::Info.try_as_level(), Some(tracing::Level::INFO));
    assert_eq!(LogLevel::Debug.try_as_level(), Some(tracing::Level::DEBUG));
    assert_eq!(LogLevel::Trace.try_as_level(), Some(tracing::Level::TRACE));
}

#[test]
fn defaults_depend_on_the_build() {
    assert_eq!(LogLevel::default_for_build(true), LogLevel::Debug);
    assert_eq!(LogLevel::default_for_build(false), LogLevel::Warn);
    assert_eq!(
        LogConfig::default_for_build(true),
        LogConfig { level: LogLevel::Debug, stream: LogStream::StdOut, format: LogFormat::Pretty }
    );
    assert_eq!(
        LogConfig::default_for_build(false),
        LogConfig { level: LogLevel::Warn, stream: LogStream::StdOut, format: LogFormat::Compact }
    );
    let app = AppConfig::default_for_build(false);
    assert_eq!(app.database.driver, DatabaseDriver::Postgres);
    assert_eq!(app.database.host, "localhost");
    assert_eq!(app.database.name, "minil");
}

#[test]
fn driver_names_are_url_schemes() {
    assert_eq!(DatabaseDriver::Sqlite.name(), "sqlite");
    assert_eq!(DatabaseDriver::Postgres.name(), "postgres");
    assert_eq!(DatabaseDriver::Mysql.name(), "mysql");
}

#[test]
fn default_database_url() {
    let db = DatabaseConfig::default_config();
    assert_eq!(db.log_level, LogLevel::Debug);
    assert_eq!(db.slow_log_level, LogLevel::Warn);
    assert_eq!(db.slow_threshold, 1);
    let url = db.try_to_url().unwrap();
    assert_eq!(url.as_str(), "postgres://localhost/minil");
}

#[test]
fn in_memory_sqlite_url() {
    let mut db = DatabaseConfig::default_config();
    db.driver = DatabaseDriver::Sqlite;
    db.host = ":memory:".to_string();
    assert_eq!(db.try_to_url().unwrap().as_str(), "sqlite::memory:");
}

#[test]
fn full_database_url() {
    let mut db = DatabaseConfig::default_config();
    db.driver = DatabaseDriver::Mysql;
    db.host = "db.example".to_string();
    db.port = Some(3306);
    db.username = "user".to_string();
    db.password = Some("pw".to_string());
    db.name = "store".to_string();
    db.params = Some("ssl=true".to_string());
    assert_eq!(
        db.try_to_url().unwrap().as_str(),
        "mysql://user:pw@db.example:3306/store?ssl=true"
    );
}

#[test]
fn in_memory_host_becomes_localhost_for_servers() {
    let mut db = DatabaseConfig::default_config();
    db.host = ":memory:".to_string();
    assert_eq!(db.try_to_url().unwrap().as_str(), "postgres://localhost/minil");
}

#[test]
fn configured_url_is_taken_as_it_is() {
    let mut db = DatabaseConfig::default_config();
    db.url = Some(url::Url::parse("postgres://other:5432/x").unwrap());
    assert_eq!(db.try_to_url().unwrap().as_str(), "postgres://other:5432/x");
}

#[test]
fn bad_host_is_a_host_error() {
    let mut db = DatabaseConfig::default_config();
    db.host = "bad host".to_string();
    assert!(matches!(db.try_to_url(), Err(UrlParseError::Host(_))));
}
