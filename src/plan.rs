//! Operator commands as ordered steps, and the rule for going on after a step.

use vstd::prelude::*;
use crate::config::Config;

verus! {

/// One unit of work for the caller to perform.
#[derive(Clone, Debug, PartialEq, Eq)]
pub enum Task {
    StartService(String),
    StopService(String),
    StartAdminTool,
    StopAdminTool,
}

/// A task, and whether its failure ends the command.
#[derive(Clone, Debug)]
pub struct Step {
    pub task: Task,
    pub halt_on_failure: bool,
}

impl Step {
    /// Whether the command goes on to the next step after this one.
    pub fn continues_after(&self, succeeded: bool) -> (r: bool)
        ensures
            r == (succeeded || !self.halt_on_failure),
    {
        succeeded || !self.halt_on_failure
    }
}

pub open spec fn service_task(t: Task, start: bool, name: Seq<char>) -> bool {
    if start {
        t matches Task::StartService(s) && s@ == name
    } else {
        t matches Task::StopService(s) && s@ == name
    }
}

pub open spec fn is_halting(steps: Seq<Step>) -> bool {
    forall|i: int| 0 <= i < steps.len() ==> #[trigger] steps[i].halt_on_failure
}

fn halting(task: Task) -> (r: Step)
    ensures
        r.task == task,
        r.halt_on_failure,
{
    Step { task, halt_on_failure: true }
}

/// `start`: the web server, then the database, then the admin tool when it is
/// asked for and enabled. The first failure ends the command.
pub fn start_plan(config: &Config, with_phpmyadmin: bool) -> (r: Vec<Step>)
    ensures
        r@.len() == (if with_phpmyadmin && config.phpmyadmin.enabled { 3int } else { 2 }),
        service_task(r@[0].task, true, config.web_server@),
        service_task(r@[1].task, true, config.database@),
        with_phpmyadmin && config.phpmyadmin.enabled ==> r@[2].task == Task::StartAdminTool,
        is_halting(r@),
{
    let mut r: Vec<Step> = Vec::new();
    r.push(halting(Task::StartService(config.web_server.clone())));
    r.push(halting(Task::StartService(config.database.clone())));
    if with_phpmyadmin && config.phpmyadmin.enabled {
        r.push(halting(Task::StartAdminTool));
    }
    r
}

/// `stop`: the admin tool, whose outcome does not end the command, then the web
/// server and the database, the first failure of which ends it.
pub fn stop_plan(config: &Config) -> (r: Vec<Step>)
    ensures
        r@.len() == 3,
        r@[0].task == Task::StopAdminTool,
        !r@[0].halt_on_failure,
        service_task(r@[1].task, false, config.web_server@),
        r@[1].halt_on_failure,
        service_task(r@[2].task, false, config.database@),
        r@[2].halt_on_failure,
{
    let mut r: Vec<Step> = Vec::new();
    r.push(Step { task: Task::StopAdminTool, halt_on_failure: false });
    r.push(halting(Task::StopService(config.web_server.clone())));
    r.push(halting(Task::StopService(config.database.clone())));
    r
}

/// A restart of a service managed by the service manager: stop, then start,
/// the first failure ending it.
pub fn service_restart(service: &str) -> (r: Vec<Step>)
    ensures
        r@.len() == 2,
        service_task(r@[0].task, false, service@),
        service_task(r@[1].task, true, service@),
        is_halting(r@),
{
    let mut r: Vec<Step> = Vec::new();
    r.push(halting(Task::StopService(service.to_owned())));
    r.push(halting(Task::StartService(service.to_owned())));
    r
}

} // verus!
