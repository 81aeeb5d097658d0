//! The pure half of the external-tool gateway.
//!
//! The external time-tracking tool is reached by spawning it as a
//! subprocess, which is I/O and lives in the surrounding binary. The
//! library fixes everything around that spawn: the exact argument list of
//! each of the five operations (every one ends in the flag that disables
//! ANSI colour), and how the captured output of a finished call is
//! normalised into the text a panel displays.

use vstd::prelude::*;
use vstd::string::StrSliceExecFns;
use vstd::string::StringExecFns;

verus! {

/// A whitespace character, as trimming understands it here.
pub open spec fn is_space(c: char) -> bool {
    c == ' ' || c == '\t' || c == '\n' || c == '\r'
}

/// A text is blank when trimming whitespace would leave nothing.
pub open spec fn blank(s: Seq<char>) -> bool {
    forall|i: int| 0 <= i < s.len() ==> is_space(s[i])
}

/// Decides blankness: true exactly when every character is whitespace.
pub fn is_blank(s: &str) -> (r: bool)
    ensures
        r == blank(s@),
{
    let n = s.unicode_len();
    let mut i: usize = 0;
    while i < n
        invariant
            i <= n,
            n == s@.len(),
            forall|j: int| 0 <= j < i ==> is_space(s@[j]),
        decreases n - i,
    {
        let c = s.get_char(i);
        if !(c == ' ' || c == '\t' || c == '\n' || c == '\r') {
            return false;
        }
        i += 1;
    }
    true
}

/// What the binary captures from one finished subprocess call: whether
/// the exit status reported success, and the decoded standard output and
/// standard error.
pub struct ToolOutput {
    pub success: bool,
    pub stdout: String,
    pub stderr: String,
}

/// An optional flag with its value: present only when the value was
/// given and is not blank.
pub open spec fn opt_flag(flag: Seq<char>, value: Option<Seq<char>>) -> Seq<Seq<char>> {
    match value {
        Option::Some(v) => if blank(v) {
            seq![]
        } else {
            seq![flag, v]
        },
        Option::None => seq![],
    }
}

/// Arguments of the status-report operation.
pub open spec fn status_args_spec() -> Seq<Seq<char>> {
    seq!["tracking"@, "--no-colors"@]
}

/// Arguments of the list-report operation.
pub open spec fn list_args_spec() -> Seq<Seq<char>> {
    seq!["list"@, "--no-colors"@]
}

/// Arguments of the statistics-report operation.
pub open spec fn stats_args_spec() -> Seq<Seq<char>> {
    seq!["stats"@, "--no-colors"@]
}

/// Arguments of the start operation: the project is always passed, task
/// and begin only when non-blank, the no-colour flag always last.
pub open spec fn start_args_spec(
    project: Seq<char>,
    task: Option<Seq<char>>,
    begin: Option<Seq<char>>,
) -> Seq<Seq<char>> {
    seq!["track"@, "--project"@, project] + opt_flag("--task"@, task) + opt_flag("--begin"@, begin)
        + seq!["--no-colors"@]
}

/// Arguments of the finish operation: all three values optional.
pub open spec fn finish_args_spec(
    task: Option<Seq<char>>,
    begin: Option<Seq<char>>,
    finish: Option<Seq<char>>,
) -> Seq<Seq<char>> {
    seq!["finish"@] + opt_flag("--task"@, task) + opt_flag("--begin"@, begin) + opt_flag(
        "--finish"@,
        finish,
    ) + seq!["--no-colors"@]
}

/// Builds the status-report argument list.
pub fn status_args() -> (r: Vec<String>)
    ensures
        r.deep_view() == status_args_spec(),
{
    let mut r: Vec<String> = Vec::new();
    r.push(String::from_str("tracking"));
    r.push(String::from_str("--no-colors"));
    proof {
        assert(r.deep_view() =~= status_args_spec());
    }
    r
}

/// Builds the list-report argument list.
pub fn list_args() -> (r: Vec<String>)
    ensures
        r.deep_view() == list_args_spec(),
{
    let mut r: Vec<String> = Vec::new();
    r.push(String::from_str("list"));
    r.push(String::from_str("--no-colors"));
    proof {
        assert(r.deep_view() =~= list_args_spec());
    }
    r
}

/// Builds the statistics-report argument list.
pub fn stats_args() -> (r: Vec<String>)
    ensures
        r.deep_view() == stats_args_spec(),
{
    let mut r: Vec<String> = Vec::new();
    r.push(String::from_str("stats"));
    r.push(String::from_str("--no-colors"));
    proof {
        assert(r.deep_view() =~= stats_args_spec());
    }
    r
}

/// Pushes one literal argument.
fn push_arg(r: &mut Vec<String>, s: &str)
    ensures
        final(r).deep_view() == old(r).deep_view() + seq![s@],
{
    r.push(String::from_str(s));
    proof {
        assert(r.deep_view() =~= old(r).deep_view() + seq![s@]);
    }
}

/// Pushes `--<flag> <value>` when the value is given and not blank.
fn push_opt_flag(r: &mut Vec<String>, flag: &str, value: &Option<String>)
    ensures
        final(r).deep_view() == old(r).deep_view() + opt_flag(flag@, value.deep_view()),
{
    match value {
        Option::Some(v) => {
            if !is_blank(v.as_str()) {
                r.push(String::from_str(flag));
                r.push(v.clone());
                proof {
                    assert(r.deep_view() =~= old(r).deep_view() + opt_flag(
                        flag@,
                        value.deep_view(),
                    ));
                }
            } else {
                proof {
                    assert(r.deep_view() =~= old(r).deep_view() + opt_flag(
                        flag@,
                        value.deep_view(),
                    ));
                }
            }
        },
        Option::None => {
            proof {
                assert(r.deep_view() =~= old(r).deep_view() + opt_flag(flag@, value.deep_view()));
            }
        },
    }
}

/// Builds the start argument list. The project name must already have
/// survived prompt validation: it is never blank here.
pub fn start_args(project: &str, task: &Option<String>, begin: &Option<String>) -> (r: Vec<String>)
    requires
        !blank(project@),
    ensures
        r.deep_view() == start_args_spec(project@, task.deep_view(), begin.deep_view()),
{
    let mut r: Vec<String> = Vec::new();
    push_arg(&mut r, "track");
    push_arg(&mut r, "--project");
    push_arg(&mut r, project);
    push_opt_flag(&mut r, "--task", task);
    push_opt_flag(&mut r, "--begin", begin);
    push_arg(&mut r, "--no-colors");
    proof {
        assert(r.deep_view() =~= start_args_spec(project@, task.deep_view(), begin.deep_view()));
    }
    r
}

/// Builds the finish argument list; every value is optional.
pub fn finish_args(
    task: &Option<String>,
    begin: &Option<String>,
    finish: &Option<String>,
) -> (r: Vec<String>)
    ensures
        r.deep_view() == finish_args_spec(task.deep_view(), begin.deep_view(), finish.deep_view()),
{
    let mut r: Vec<String> = Vec::new();
    push_arg(&mut r, "finish");
    push_opt_flag(&mut r, "--task", task);
    push_opt_flag(&mut r, "--begin", begin);
    push_opt_flag(&mut r, "--finish", finish);
    push_arg(&mut r, "--no-colors");
    proof {
        assert(r.deep_view() =~= finish_args_spec(
            task.deep_view(),
            begin.deep_view(),
            finish.deep_view(),
        ));
    }
    r
}

/// Panel text for the status report, exactly as displayed: a failed call
/// gives the fixed error sentinel whatever standard error held; success
/// with blank output gives the no-tracking sentinel; any other success
/// shows the output verbatim.
pub fn tracking_status_text(out: &ToolOutput) -> (r: String)
    ensures
        !out.success ==> r@ == "Error getting tracking status."@,
        out.success && blank(out.stdout@) ==> r@ == "No active tracking."@,
        out.success && !blank(out.stdout@) ==> r@ == out.stdout@,
{
    if out.success {
        if is_blank(out.stdout.as_str()) {
            String::from_str("No active tracking.")
        } else {
            out.stdout.clone()
        }
    } else {
        String::from_str("Error getting tracking status.")
    }
}

/// Panel text for the list report: the output verbatim on success, a
/// labelled line embedding standard error on failure.
pub fn list_text(out: &ToolOutput) -> (r: String)
    ensures
        out.success ==> r@ == out.stdout@,
        !out.success ==> r@ == "Error getting list: "@ + out.stderr@,
{
    if out.success {
        out.stdout.clone()
    } else {
        String::from_str("Error getting list: ").concat(out.stderr.as_str())
    }
}

/// Panel text for the statistics report: the output verbatim on success,
/// a labelled line embedding standard error on failure.
pub fn stats_text(out: &ToolOutput) -> (r: String)
    ensures
        out.success ==> r@ == out.stdout@,
        !out.success ==> r@ == "Error getting stats: "@ + out.stderr@,
{
    if out.success {
        out.stdout.clone()
    } else {
        String::from_str("Error getting stats: ").concat(out.stderr.as_str())
    }
}

/// The error line for a failed start operation; `None` reports success,
/// and then nothing is shown.
pub fn start_failure_text(out: &ToolOutput) -> (r: Option<String>)
    ensures
        r is None <==> out.success,
        !out.success ==> (r matches Some(msg) && msg@ == "Failed to start tracking: "@
            + out.stderr@),
{
    if out.success {
        None
    } else {
        Some(String::from_str("Failed to start tracking: ").concat(out.stderr.as_str()))
    }
}

/// The error line for a failed finish operation; `None` reports success.
pub fn finish_failure_text(out: &ToolOutput) -> (r: Option<String>)
    ensures
        r is None <==> out.success,
        !out.success ==> (r matches Some(msg) && msg@ == "Failed to finish tracking: "@
            + out.stderr@),
{
    if out.success {
        None
    } else {
        Some(String::from_str("Failed to finish tracking: ").concat(out.stderr.as_str()))
    }
}

} // verus!
