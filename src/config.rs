//! The launcher's configuration and its validation.

use vstd::prelude::*;
use vstd::string::StringExecFns;
use crate::error::{ConfigProblem, LauncherError};

verus! {

/// The configuration file, in the working directory.
pub const CONFIG_FILE: &'static str = "larrust.json";

/// An IP address, as its octets or segments.
#[derive(Clone, Copy, Debug, PartialEq, Eq, Structural)]
pub enum IpAddress {
    V4(u8, u8, u8, u8),
    V6(u16, u16, u16, u16, u16, u16, u16, u16),
}

/// Settings of the bundled database admin tool.
#[derive(Clone, Debug)]
pub struct PhpMyAdminConfig {
    pub enabled: bool,
    pub port: u16,
    pub ip: IpAddress,
    /// Document root served by the tool.
    pub path: String,
}

pub open spec fn default_root() -> Seq<char> {
    seq!['p', 'h', 'p', 'm', 'y', 'a', 'd', 'm', 'i', 'n']
}

pub open spec fn is_default_admin(c: PhpMyAdminConfig) -> bool {
    &&& c.enabled
    &&& c.port == 8081
    &&& c.ip == IpAddress::V4(127, 0, 0, 1)
    &&& c.path@ == default_root()
}

impl Default for PhpMyAdminConfig {
    fn default() -> (r: Self)
        ensures
            is_default_admin(r),
    {
        proof {
            reveal_strlit("phpmyadmin");
        }
        let path = String::from_str("phpmyadmin");
        assert(path@ =~= default_root());
        PhpMyAdminConfig { enabled: true, port: 8081, ip: IpAddress::V4(127, 0, 0, 1), path }
    }
}

/// Admin-tool settings as read from the file: each may be absent.
#[derive(Clone, Debug)]
pub struct RawAdminConfig {
    pub enabled: Option<bool>,
    pub port: Option<u16>,
    pub ip: Option<IpAddress>,
    pub path: Option<String>,
}

/// The configuration file's fields as read, before validation.
#[derive(Clone, Debug)]
pub struct RawConfig {
    pub web_server: Option<String>,
    pub database: Option<String>,
    pub php_version: Option<String>,
    pub phpmyadmin: Option<RawAdminConfig>,
}

/// A validated configuration: `web_server` and `database` are not empty.
#[derive(Clone, Debug)]
pub struct Config {
    pub web_server: String,
    pub database: String,
    pub php_version: String,
    pub phpmyadmin: PhpMyAdminConfig,
}

impl Config {
    pub open spec fn wf(&self) -> bool {
        self.web_server@.len() > 0 && self.database@.len() > 0
    }
}

pub open spec fn required_problem(v: Option<String>, may_be_empty: bool) -> Option<ConfigProblem> {
    match v {
        None => Some(ConfigProblem::Missing),
        Some(s) => if s@.len() == 0 && !may_be_empty {
            Some(ConfigProblem::Empty)
        } else {
            None
        },
    }
}

/// The first problem of a raw configuration, with the name of the field.
pub open spec fn config_problem(raw: RawConfig) -> Option<(ConfigProblem, Seq<char>)> {
    if required_problem(raw.web_server, false) is Some {
        Some((required_problem(raw.web_server, false).unwrap(), web_server_key()))
    } else if required_problem(raw.database, false) is Some {
        Some((required_problem(raw.database, false).unwrap(), database_key()))
    } else if required_problem(raw.php_version, true) is Some {
        Some((required_problem(raw.php_version, true).unwrap(), php_version_key()))
    } else {
        None
    }
}

pub open spec fn web_server_key() -> Seq<char> {
    seq!['w', 'e', 'b', '_', 's', 'e', 'r', 'v', 'e', 'r']
}

pub open spec fn database_key() -> Seq<char> {
    seq!['d', 'a', 't', 'a', 'b', 'a', 's', 'e']
}

pub open spec fn php_version_key() -> Seq<char> {
    seq!['p', 'h', 'p', '_', 'v', 'e', 'r', 's', 'i', 'o', 'n']
}

/// The admin-tool settings that a raw section gives, absent values taking the defaults.
pub open spec fn admin_resolved(raw: Option<RawAdminConfig>, c: PhpMyAdminConfig) -> bool {
    match raw {
        None => is_default_admin(c),
        Some(a) => {
            &&& c.enabled == a.enabled.unwrap_or(true)
            &&& c.port == a.port.unwrap_or(8081)
            &&& c.ip == a.ip.unwrap_or(IpAddress::V4(127, 0, 0, 1))
            &&& c.path@ == (match a.path {
                Some(p) => p@,
                None => default_root(),
            })
        },
    }
}

fn check_required(v: &Option<String>, may_be_empty: bool) -> (r: Option<ConfigProblem>)
    ensures
        r == required_problem(*v, may_be_empty),
{
    match v {
        None => Some(ConfigProblem::Missing),
        Some(s) => if s.as_str().is_empty() && !may_be_empty {
            Some(ConfigProblem::Empty)
        } else {
            None
        },
    }
}

fn config_error(problem: ConfigProblem, field: &str) -> (r: LauncherError)
    ensures
        r matches LauncherError::ConfigMissingOrInvalid { problem: p, detail }
            && p == problem && detail@ == field@,
{
    LauncherError::ConfigMissingOrInvalid { problem, detail: String::from_str(field) }
}

fn resolve_admin(raw: Option<RawAdminConfig>) -> (r: PhpMyAdminConfig)
    ensures
        admin_resolved(raw, r),
{
    match raw {
        None => PhpMyAdminConfig::default(),
        Some(a) => {
            let d = PhpMyAdminConfig::default();
            let path = match a.path {
                Some(p) => p,
                None => d.path,
            };
            PhpMyAdminConfig {
                enabled: match a.enabled {
                    Some(e) => e,
                    None => true,
                },
                port: match a.port {
                    Some(p) => p,
                    None => 8081,
                },
                ip: match a.ip {
                    Some(ip) => ip,
                    None => IpAddress::V4(127, 0, 0, 1),
                },
                path,
            }
        },
    }
}

impl Config {
    /// Validates the fields read from the configuration file. `web_server` and
    /// `database` must be present and non-empty, `php_version` present; absent
    /// admin-tool settings take their defaults.
    pub fn load(raw: RawConfig) -> (r: Result<Config, LauncherError>)
        ensures
            match config_problem(raw) {
                Some((problem, field)) => r matches Err(LauncherError::ConfigMissingOrInvalid {
                    problem: p,
                    detail,
                }) && p == problem && detail@ == field,
                None => r matches Ok(c) && c.wf() && Some(c.web_server) == raw.web_server
                    && Some(c.database) == raw.database && Some(c.php_version) == raw.php_version
                    && admin_resolved(raw.phpmyadmin, c.phpmyadmin),
            },
    {
        proof {
            reveal_strlit("web_server");
            reveal_strlit("database");
            reveal_strlit("php_version");
        }
        assert("web_server"@ =~= web_server_key());
        assert("database"@ =~= database_key());
        assert("php_version"@ =~= php_version_key());
        let RawConfig { web_server, database, php_version, phpmyadmin } = raw;
        let web_server = match web_server {
            None => return Err(config_error(ConfigProblem::Missing, "web_server")),
            Some(s) => s,
        };
        if web_server.as_str().is_empty() {
            return Err(config_error(ConfigProblem::Empty, "web_server"));
        }
        let database = match database {
            None => return Err(config_error(ConfigProblem::Missing, "database")),
            Some(s) => s,
        };
        if database.as_str().is_empty() {
            return Err(config_error(ConfigProblem::Empty, "database"));
        }
        let php_version = match php_version {
            None => return Err(config_error(ConfigProblem::Missing, "php_version")),
            Some(s) => s,
        };
        Ok(Config { web_server, database, php_version, phpmyadmin: resolve_admin(phpmyadmin) })
    }
}

} // verus!
