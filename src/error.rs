//! Errors reported to the operator.

use vstd::prelude::*;

verus! {

/// What is wrong with the configuration file.
#[derive(Clone, Copy, Debug, PartialEq, Eq, Structural)]
pub enum ConfigProblem {
    /// The file could not be read.
    Unreadable,
    /// The file is not valid JSON of the expected shape.
    Unparsable,
    /// A required field is absent.
    Missing,
    /// A required field is present but empty.
    Empty,
}

/// The two operations that the service manager is asked for.
#[derive(Clone, Copy, Debug, PartialEq, Eq, Structural)]
pub enum Verb {
    Start,
    Stop,
}

#[derive(Clone, Debug, PartialEq, Eq)]
pub enum LauncherError {
    /// `detail` names the field, or carries the reader's or parser's message.
    ConfigMissingOrInvalid { problem: ConfigProblem, detail: String },
    /// The executable of `service` is not on the search path.
    ServiceNotInstalled { service: String, package: String },
    /// The service manager could not run, or reported failure.
    ServiceCommandFailed { service: String, verb: Verb, detail: String, package: String },
    /// The PHP interpreter that runs the admin tool is not on the search path.
    AdminToolPrerequisiteMissing,
    /// The admin tool's document root does not exist.
    AdminToolPathInvalid { path: String },
    /// The admin tool's server process could not be started.
    AdminToolSpawnFailed { detail: String },
    /// The server runs, but its process id could not be written to the PID file.
    PidFilePersistError { pid: u32 },
    /// A file or directory of that name is already there.
    ProjectAlreadyExists { name: String },
    /// The project directory or its entry file could not be written.
    ProjectWriteFailed { name: String, detail: String },
    /// Neither the plain nor the privileged database command succeeded.
    DatabaseCreationFailed { name: String, detail: String, user: String },
}

} // verus!
