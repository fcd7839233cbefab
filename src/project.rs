//! Scaffolding of a new project: a directory holding one PHP entry file.

use vstd::prelude::*;
use vstd::string::StringExecFns;
use crate::error::LauncherError;

verus! {

/// Contents of the entry file of a new project.
pub const INDEX_PHP: &'static str = "<?php \necho \"\u{a1}Hola desde LarRust!\";\nphpinfo();\n?>";

/// What the caller is to create.
#[derive(Clone, Debug)]
pub struct ScaffoldPlan {
    pub directory: String,
    pub entry_file: String,
    pub contents: String,
}

pub open spec fn entry_path(name: Seq<char>) -> Seq<char> {
    name + "/index.php"@
}

/// A new project `name`: refused when an entry of that name is there already,
/// in which case nothing is to be created.
pub fn create_project(name: &str, exists: bool) -> (r: Result<ScaffoldPlan, LauncherError>)
    ensures
        exists <==> r is Err,
        exists ==> (r matches Err(LauncherError::ProjectAlreadyExists { name: n }) && n@ == name@),
        !exists ==> (r matches Ok(p) && p.directory@ == name@ && p.entry_file@ == entry_path(name@)
            && p.contents@ == INDEX_PHP@),
{
    if exists {
        return Err(LauncherError::ProjectAlreadyExists { name: name.to_owned() });
    }
    Ok(
        ScaffoldPlan {
            directory: name.to_owned(),
            entry_file: name.to_owned().concat("/index.php"),
            contents: String::from_str(INDEX_PHP),
        },
    )
}

/// The outcome of scaffolding, given why the directory or the entry file could
/// not be written. When the directory was made but the file was not, the
/// directory is to be removed again (`.0`), so that no partial project stays.
pub fn scaffold_outcome(name: &str, dir_error: Option<String>, file_error: Option<String>) -> (r: (
    bool,
    Result<(), LauncherError>,
))
    ensures
        r.0 == (dir_error is None && file_error is Some),
        (dir_error is None && file_error is None) <==> r.1 is Ok,
        dir_error matches Some(d) ==> (r.1 matches Err(LauncherError::ProjectWriteFailed {
            name: n,
            detail,
        }) && n@ == name@ && detail@ == d@),
        dir_error is None ==> (file_error matches Some(f) ==> (r.1 matches Err(
            LauncherError::ProjectWriteFailed { name: n, detail },
        ) && n@ == name@ && detail@ == f@)),
{
    match dir_error {
        Some(d) => (false, Err(LauncherError::ProjectWriteFailed { name: name.to_owned(), detail: d })),
        None => match file_error {
            Some(f) => (true, Err(LauncherError::ProjectWriteFailed { name: name.to_owned(), detail: f })),
            None => (false, Ok(())),
        },
    }
}

/// What is told after `create`: a database failure leaves the project in place
/// and adds the command that creates the database by hand.
#[derive(Clone, Debug)]
pub struct CreateReport {
    pub database_created: bool,
    pub manual_command: Option<String>,
}

pub open spec fn manual_create(name: Seq<char>) -> Seq<char> {
    "sudo mysql -e \"CREATE DATABASE "@ + name + ";\""@
}

pub fn create_report(name: &str, database: &Result<(), LauncherError>) -> (r: CreateReport)
    ensures
        r.database_created == database is Ok,
        database is Ok ==> r.manual_command is None,
        database is Err ==> (r.manual_command matches Some(c) && c@ == manual_create(name@)),
{
    match database {
        Ok(()) => CreateReport { database_created: true, manual_command: None },
        Err(_) => CreateReport {
            database_created: false,
            manual_command: Some(
                String::from_str("sudo mysql -e \"CREATE DATABASE ").concat(name).concat(";\""),
            ),
        },
    }
}

} // verus!
