use larrust::config::{Config, IpAddress, PhpMyAdminConfig, RawAdminConfig, RawConfig};
use larrust::error::{ConfigProblem, LauncherError};

fn raw(web: Option<&str>, db: Option<&str>, admin: Option<RawAdminConfig>) -> RawConfig {
    RawConfig {
        web_server: web.map(|s| s.to_string()),
        database: db.map(|s| s.to_string()),
        php_version: Some("8.2".to_string()),
        phpmyadmin: admin,
    }
}

fn problem(r: Result<Config, LauncherError>) -> (ConfigProblem, String) {
    match r {
        Err(LauncherError::ConfigMissingOrInvalid { problem, detail }) => (problem, detail),
        _ => panic!("expected a configuration error"),
    }
}

#[test]
fn load_rejects_absent_web_server() {
    let (p, f) = problem(Config::load(raw(None, Some("mysql"), None)));
    assert_eq!(p, ConfigProblem::Missing);
    assert_eq!(f, "web_server");
}

#[test]
fn load_rejects_empty_web_server() {
    let (p, f) = problem(Config::load(raw(Some(""), Some("mysql"), None)));
    assert_eq!(p, ConfigProblem::Empty);
    assert_eq!(f, "web_server");
}

#[test]
fn load_rejects_absent_or_empty_database() {
    let (p, f) = problem(Config::load(raw(Some("nginx"), None, None)));
    assert_eq!((p, f.as_str()), (ConfigProblem::Missing, "database"));
    let (p, f) = problem(Config::load(raw(Some("nginx"), Some(""), None)));
    assert_eq!((p, f.as_str()), (ConfigProblem::Empty, "database"));
}

#[test]
fn load_rejects_absent_php_version() {
    let mut r = raw(Some("nginx"), Some("mysql"), None);
    r.php_version = None;
    let (p, f) = problem(Config::load(r));
    assert_eq!((p, f.as_str()), (ConfigProblem::Missing, "php_version"));
}

#[test]
fn load_applies_defaults_without_admin_section() {
    let c = Config::load(raw(Some("nginx"), Some("mysql"), None)).unwrap();
    assert_eq!(c.web_server, "nginx");
    assert_eq!(c.database, "mysql");
    assert_eq!(c.php_version, "8.2");
    assert!(c.phpmyadmin.enabled);
    assert_eq!(c.phpmyadmin.port, 8081);
    assert_eq!(c.phpmyadmin.ip, IpAddress::V4(127, 0, 0, 1));
    assert_eq!(c.phpmyadmin.path, "phpmyadmin");
}

#[test]
fn load_fills_missing_admin_fields() {
    let admin = RawAdminConfig { enabled: Some(false), port: Some(9000), ip: None, path: None };
    let c = Config::load(raw(Some("apache2"), Some("mariadb"), Some(admin))).unwrap();
    assert!(!c.phpmyadmin.enabled);
    assert_eq!(c.phpmyadmin.port, 9000);
    assert_eq!(c.phpmyadmin.ip, IpAddress::V4(127, 0, 0, 1));
    assert_eq!(c.phpmyadmin.path, "phpmyadmin");
}

#[test]
fn load_keeps_given_admin_fields() {
    let admin = RawAdminConfig {
        enabled: Some(true),
        port: Some(8081),
        ip: Some(IpAddress::V4(127, 0, 0, 1)),
        path: Some("./tool".to_string()),
    };
    let c = Config::load(raw(Some("nginx"), Some("mysql"), Some(admin))).unwrap();
    assert_eq!(c.phpmyadmin.path, "./tool");
    assert_eq!(c.phpmyadmin.ip, IpAddress::V4(127, 0, 0, 1));
}

#[test]
fn default_admin_settings() {
    let d = PhpMyAdminConfig::default();
    assert!(d.enabled);
    assert_eq!(d.port, 8081);
    assert_eq!(d.ip, IpAddress::V4(127, 0, 0, 1));
    assert_eq!(d.path, "phpmyadmin");
}
