//! Structured prompt input and its validation.
//!
//! The start and finish commands collect their values through blocking
//! console prompts run by the surrounding binary while the screen session
//! is suspended. The answers arrive here as plain values; this module
//! validates them and turns them into gateway argument lists.

use vstd::prelude::*;
use vstd::string::StringExecFns;

use crate::gateway::blank;
use crate::gateway::finish_args;
use crate::gateway::finish_args_spec;
use crate::gateway::is_blank;
use crate::gateway::start_args;
use crate::gateway::start_args_spec;

verus! {

/// Answers collected before a start command: the project name is
/// required, task and begin time optional. The begin value is an opaque
/// time expression, forwarded verbatim.
pub struct StartAnswers {
    pub project: String,
    pub task: Option<String>,
    pub begin: Option<String>,
}

/// Answers collected before a finish command; every value is optional.
pub struct FinishAnswers {
    pub task: Option<String>,
    pub begin: Option<String>,
    pub finish: Option<String>,
}

/// The prompt-time validator for the project name: blank input is
/// rejected with the message shown beside the prompt, and the prompt is
/// asked again.
pub fn validate_project(input: &str) -> (r: Result<(), String>)
    ensures
        r is Ok <==> !blank(input@),
        r matches Err(m) ==> m@ == "Project name cannot be empty"@,
{
    if is_blank(input) {
        Err(String::from_str("Project name cannot be empty"))
    } else {
        Ok(())
    }
}

/// Turns start answers into the start argument list — but only when the
/// project name survives validation. A blank project yields `None` and
/// so never reaches the gateway.
pub fn start_args_from_answers(a: &StartAnswers) -> (r: Option<Vec<String>>)
    ensures
        r is None <==> blank(a.project@),
        r matches Some(v) ==> v.deep_view() == start_args_spec(
            a.project@,
            a.task.deep_view(),
            a.begin.deep_view(),
        ),
{
    if is_blank(a.project.as_str()) {
        None
    } else {
        Some(start_args(a.project.as_str(), &a.task, &a.begin))
    }
}

/// Turns finish answers into the finish argument list; nothing can fail
/// here since every value is optional.
pub fn finish_args_from_answers(a: &FinishAnswers) -> (r: Vec<String>)
    ensures
        r.deep_view() == finish_args_spec(
            a.task.deep_view(),
            a.begin.deep_view(),
            a.finish.deep_view(),
        ),
{
    finish_args(&a.task, &a.begin, &a.finish)
}

} // verus!
