//! Service-manager and database commands: the checks before them, the command
//! lines, and how their outcomes are reported.

use vstd::prelude::*;
use vstd::string::StringExecFns;
use crate::error::{LauncherError, Verb};
use crate::plan::{service_restart, service_task, is_halting, Step};
use crate::text::{same_text, trim, trimmed};

verus! {

/// A program and its arguments, for the caller to run.
#[derive(Clone, Debug)]
pub struct Invocation {
    pub program: String,
    pub args: Vec<String>,
}

/// How a command went: whether it ran and exited successfully, and the text
/// it wrote to its error stream (or why it could not run).
#[derive(Clone, Debug)]
pub struct CommandReport {
    pub success: bool,
    pub diagnostic: String,
}

pub open spec fn strs(v: Seq<String>) -> Seq<Seq<char>> {
    v.map_values(|s: String| s@)
}

/// The package that provides a service: known database servers have their own,
/// other services are packaged under their own name.
pub open spec fn package_for(service: Seq<char>) -> Seq<char> {
    if service == "mysql"@ {
        "mysql-server"@
    } else if service == "mariadb"@ {
        "mariadb-server"@
    } else {
        service
    }
}

pub open spec fn verb_word(v: Verb) -> Seq<char> {
    match v {
        Verb::Start => "start"@,
        Verb::Stop => "stop"@,
    }
}

/// `sudo systemctl <verb> <service>`.
pub open spec fn is_systemctl(i: Invocation, verb: Verb, service: Seq<char>) -> bool {
    i.program@ == "sudo"@ && strs(i.args@) == seq!["systemctl"@, verb_word(verb), service]
}

pub open spec fn create_sql(name: Seq<char>) -> Seq<char> {
    "CREATE DATABASE IF NOT EXISTS "@ + name + ";"@
}

pub open spec fn not_installed(e: LauncherError, service: Seq<char>) -> bool {
    e matches LauncherError::ServiceNotInstalled { service: s, package }
        && s@ == service && package@ == package_for(service)
}

/// The package that provides `service`.
pub fn suggested_package(service: &str) -> (r: &str)
    ensures
        r@ == package_for(service@),
{
    if same_text(service, "mysql") {
        "mysql-server"
    } else if same_text(service, "mariadb") {
        "mariadb-server"
    } else {
        service
    }
}

/// Succeeds exactly when the service's executable was found.
pub fn check_service_installed(service: &str, installed: bool) -> (r: Result<(), LauncherError>)
    ensures
        installed <==> r is Ok,
        !installed ==> (r matches Err(e) && not_installed(e, service@)),
{
    if installed {
        Ok(())
    } else {
        Err(
            LauncherError::ServiceNotInstalled {
                service: service.to_owned(),
                package: suggested_package(service).to_owned(),
            },
        )
    }
}

fn verb_text(verb: Verb) -> (r: &'static str)
    ensures
        r@ == verb_word(verb),
{
    match verb {
        Verb::Start => "start",
        Verb::Stop => "stop",
    }
}

fn systemctl(verb: Verb, service: &str) -> (r: Invocation)
    ensures
        is_systemctl(r, verb, service@),
{
    let mut args: Vec<String> = Vec::new();
    args.push(String::from_str("systemctl"));
    args.push(String::from_str(verb_text(verb)));
    args.push(service.to_owned());
    let r = Invocation { program: String::from_str("sudo"), args };
    assert(strs(r.args@) =~= seq!["systemctl"@, verb_word(verb), service@]);
    r
}

/// The service-manager command that starts `service`, once its executable was found.
pub fn start(service: &str, installed: bool) -> (r: Result<Invocation, LauncherError>)
    ensures
        installed <==> r is Ok,
        installed ==> (r matches Ok(i) && is_systemctl(i, Verb::Start, service@)),
        !installed ==> (r matches Err(e) && not_installed(e, service@)),
{
    check_service_installed(service, installed)?;
    Ok(systemctl(Verb::Start, service))
}

/// The service-manager command that stops `service`, once its executable was found.
pub fn stop(service: &str, installed: bool) -> (r: Result<Invocation, LauncherError>)
    ensures
        installed <==> r is Ok,
        installed ==> (r matches Ok(i) && is_systemctl(i, Verb::Stop, service@)),
        !installed ==> (r matches Err(e) && not_installed(e, service@)),
{
    check_service_installed(service, installed)?;
    Ok(systemctl(Verb::Stop, service))
}

/// Stop, then start; the first failure ends the restart.
pub fn restart(service: &str) -> (r: Vec<Step>)
    ensures
        r@.len() == 2,
        service_task(r@[0].task, false, service@),
        service_task(r@[1].task, true, service@),
        is_halting(r@),
{
    service_restart(service)
}

/// The outcome of a service-manager command: a failure carries the trimmed
/// diagnostic and the package to install.
pub fn service_outcome(verb: Verb, service: &str, report: &CommandReport) -> (r: Result<
    (),
    LauncherError,
>)
    ensures
        report.success <==> r is Ok,
        !report.success ==> (r matches Err(LauncherError::ServiceCommandFailed {
            service: s,
            verb: v,
            detail,
            package,
        }) && s@ == service@ && v == verb && detail@ == trimmed(report.diagnostic@) && package@
            == package_for(service@)),
{
    if report.success {
        Ok(())
    } else {
        Err(
            LauncherError::ServiceCommandFailed {
                service: service.to_owned(),
                verb,
                detail: trim(report.diagnostic.as_str()),
                package: suggested_package(service).to_owned(),
            },
        )
    }
}

fn create_command(privileged: bool, name: &str) -> (r: Invocation)
    ensures
        privileged ==> r.program@ == "sudo"@ && strs(r.args@) == seq![
            "mysql"@,
            "-e"@,
            create_sql(name@),
        ],
        !privileged ==> r.program@ == "mysql"@ && strs(r.args@) == seq!["-e"@, create_sql(name@)],
{
    let sql = String::from_str("CREATE DATABASE IF NOT EXISTS ").concat(name).concat(";");
    let mut args: Vec<String> = Vec::new();
    let program = if privileged {
        args.push(String::from_str("mysql"));
        String::from_str("sudo")
    } else {
        String::from_str("mysql")
    };
    args.push(String::from_str("-e"));
    args.push(sql);
    let r = Invocation { program, args };
    if privileged {
        assert(strs(r.args@) =~= seq!["mysql"@, "-e"@, create_sql(name@)]);
    } else {
        assert(strs(r.args@) =~= seq!["-e"@, create_sql(name@)]);
    }
    r
}

/// The first attempt at creating database `name`, run without privileges, once
/// the `mysql` client was found.
pub fn create_database(name: &str, mysql_installed: bool) -> (r: Result<Invocation, LauncherError>)
    ensures
        mysql_installed <==> r is Ok,
        mysql_installed ==> (r matches Ok(i) && i.program@ == "mysql"@ && strs(i.args@) == seq![
            "-e"@,
            create_sql(name@),
        ]),
        !mysql_installed ==> (r matches Err(e) && not_installed(e, "mysql"@)),
{
    check_service_installed("mysql", mysql_installed)?;
    Ok(create_command(false, name))
}

/// After the unprivileged attempt: nothing more when it succeeded, else the
/// same statement run with privileges.
pub fn after_direct_attempt(name: &str, succeeded: bool) -> (r: Option<Invocation>)
    ensures
        succeeded <==> r is None,
        !succeeded ==> (r matches Some(i) && i.program@ == "sudo"@ && strs(i.args@) == seq![
            "mysql"@,
            "-e"@,
            create_sql(name@),
        ]),
{
    if succeeded {
        None
    } else {
        Some(create_command(true, name))
    }
}

pub open spec fn account_of(env_user: Option<String>) -> Seq<char> {
    match env_user {
        Some(u) => u@,
        None => "your_user"@,
    }
}

/// After the privileged attempt: a failure carries the trimmed diagnostic and
/// the account to name in the remediation commands.
pub fn after_privileged_attempt(name: &str, report: &CommandReport, env_user: Option<String>) -> (r:
    Result<(), LauncherError>)
    ensures
        report.success <==> r is Ok,
        !report.success ==> (r matches Err(LauncherError::DatabaseCreationFailed {
            name: n,
            detail,
            user,
        }) && n@ == name@ && detail@ == trimmed(report.diagnostic@) && user@ == account_of(
            env_user,
        )),
{
    if report.success {
        Ok(())
    } else {
        let user = match env_user {
            Some(u) => u,
            None => String::from_str("your_user"),
        };
        Err(
            LauncherError::DatabaseCreationFailed {
                name: name.to_owned(),
                detail: trim(report.diagnostic.as_str()),
                user,
            },
        )
    }
}

} // verus!
