use pinaivu_indexer::config::{
    archive_after_minutes_from, Config, ConfigError, ConfigVars, DEFAULT_ARCHIVE_AFTER_MINUTES,
    DEFAULT_NODE_ONLINE_TTL_SECS,
};

fn vars(database_url: Option<&str>) -> ConfigVars {
    ConfigVars {
        database_url: database_url.map(|s| s.to_string()),
        bind: None,
        walrus_publisher_url: None,
        archive_after_minutes: None,
        coordinator_url: None,
        insecure_coordinator: None,
        node_online_ttl_secs: None,
    }
}

#[test]
fn missing_database_url_is_an_error() {
    assert_eq!(Config::from_env(vars(None)), Err(ConfigError::MissingDatabaseUrl));
}

#[test]
fn empty_database_url_is_an_error() {
    assert_eq!(Config::from_env(vars(Some(""))), Err(ConfigError::MissingDatabaseUrl));
    assert_eq!(ConfigError::MissingDatabaseUrl.message(), "DATABASE_URL is required");
}

#[test]
fn defaults_apply_when_unset() {
    let c = Config::from_env(vars(Some("postgres://db"))).unwrap();
    assert_eq!(c.database_url, "postgres://db");
    assert_eq!(c.bind, "0.0.0.0:3100");
    assert_eq!(c.walrus_publisher_url, "https://publisher.walrus.site");
    assert_eq!(c.archive_after_minutes, 5);
    assert_eq!(c.coordinator_url, "https://127.0.0.1:4000");
    assert!(!c.insecure_coordinator);
    assert_eq!(c.node_online_ttl_secs, 90);
    assert_eq!(DEFAULT_ARCHIVE_AFTER_MINUTES, 5);
    assert_eq!(DEFAULT_NODE_ONLINE_TTL_SECS, 90);
}

#[test]
fn given_values_are_kept() {
    let v = ConfigVars {
        database_url: Some("postgres://x".to_string()),
        bind: Some("127.0.0.1:9".to_string()),
        walrus_publisher_url: Some("https://pub".to_string()),
        archive_after_minutes: Some("12".to_string()),
        coordinator_url: Some("https://coord/".to_string()),
        insecure_coordinator: Some("1".to_string()),
        node_online_ttl_secs: Some("30".to_string()),
    };
    let c = Config::from_env(v).unwrap();
    assert_eq!(c.bind, "127.0.0.1:9");
    assert_eq!(c.walrus_publisher_url, "https://pub");
    assert_eq!(c.archive_after_minutes, 12);
    assert_eq!(c.coordinator_url, "https://coord/");
    assert!(c.insecure_coordinator);
    assert_eq!(c.node_online_ttl_secs, 30);
}

fn minutes(s: &str) -> i64 {
    archive_after_minutes_from(&Some(s.to_string()))
}

#[test]
fn archive_minutes_parse_like_i64() {
    assert_eq!(minutes("7"), 7);
    assert_eq!(minutes("+7"), 7);
    assert_eq!(minutes("-3"), -3);
    assert_eq!(minutes("007"), 7);
    assert_eq!(minutes("9223372036854775807"), i64::MAX);
    assert_eq!(minutes("-9223372036854775808"), i64::MIN);
    // Anything that does not parse falls back to the default.
    assert_eq!(minutes(" 7"), 5);
    assert_eq!(minutes("7m"), 5);
    assert_eq!(minutes(""), 5);
    assert_eq!(minutes("-"), 5);
    assert_eq!(minutes("+"), 5);
    assert_eq!(minutes("9223372036854775808"), 5);
    assert_eq!(archive_after_minutes_from(&None), 5);
}

fn ttl(s: &str) -> u64 {
    let mut v = vars(Some("db"));
    v.node_online_ttl_secs = Some(s.to_string());
    Config::from_env(v).unwrap().node_online_ttl_secs
}

#[test]
fn ttl_parses_like_u64() {
    assert_eq!(ttl("120"), 120);
    assert_eq!(ttl("+120"), 120);
    assert_eq!(ttl("0"), 0);
    assert_eq!(ttl("18446744073709551615"), u64::MAX);
    assert_eq!(ttl("-1"), 90);
    assert_eq!(ttl("-0"), 90);
    assert_eq!(ttl("18446744073709551616"), 90);
    assert_eq!(ttl("1.5"), 90);
}

fn insecure(s: Option<&str>) -> bool {
    let mut v = vars(Some("db"));
    v.insecure_coordinator = s.map(|x| x.to_string());
    Config::from_env(v).unwrap().insecure_coordinator
}

#[test]
fn insecure_flag_accepts_one_and_true_in_any_case() {
    assert!(insecure(Some("1")));
    assert!(insecure(Some("true")));
    assert!(insecure(Some("TRUE")));
    assert!(insecure(Some("tRuE")));
    assert!(!insecure(Some("yes")));
    assert!(!insecure(Some("0")));
    assert!(!insecure(Some("01")));
    assert!(!insecure(Some("true ")));
    assert!(!insecure(Some("")));
    assert!(!insecure(None));
}
