//! Invocation building: the problem-statement text and the command-line
//! argument lists handed to the process launcher when the external agent is
//! started. The launch itself (task lookup, process spawn) is I/O and lives
//! outside this library; these functions compute exactly what it passes on.

use vstd::prelude::*;

verus! {

/// The closing instruction appended to every problem statement.
pub open spec fn statement_suffix() -> Seq<char> {
    " - Please help me implement the task in the codebase. Analyze the current code structure and make the necessary changes to fulfill the requirements."@
}

/// The problem statement for a new task: the task title and, when present,
/// its description, combined into one instruction.
pub open spec fn problem_statement_spec(title: Seq<char>, description: Option<Seq<char>>) -> Seq<
    char,
> {
    match description {
        Some(d) => "Task: "@ + title + " - Description: "@ + d + statement_suffix(),
        None => "Task: "@ + title + statement_suffix(),
    }
}

/// Build the problem statement handed to the agent CLI for a new task.
pub fn build_problem_statement(title: &str, description: Option<&str>) -> (r: String)
    ensures
        r@ == problem_statement_spec(
            title@,
            match description {
                Some(d) => Some(d@),
                None => None,
            },
        ),
{
    let mut s = String::new();
    s.append("Task: ");
    s.append(title);
    match description {
        Some(d) => {
            s.append(" - Description: ");
            s.append(d);
        },
        None => {},
    }
    s.append(
        " - Please help me implement the task in the codebase. Analyze the current code structure and make the necessary changes to fulfill the requirements.",
    );
    proof {
        assert(s@ =~= problem_statement_spec(
            title@,
            match description {
                Some(d) => Some(d@),
                None => None,
            },
        ));
    }
    s
}

/// The argument list for a new task: the workspace flag with the worktree
/// root, the problem-statement flag with its text, and the flag that keeps
/// standard output quiet.
pub open spec fn initial_args_spec(worktree_path: Seq<char>, problem_statement: Seq<char>) -> Seq<
    Seq<char>,
> {
    seq![
        "--workspace"@,
        worktree_path,
        "--problem-statement"@,
        problem_statement,
        "--minimize-stdout-logs"@,
    ]
}

/// Build the argument list for a new task.
pub fn initial_args(worktree_path: &str, problem_statement: &str) -> (r: Vec<String>)
    ensures
        r@.map_values(|x: String| x@) == initial_args_spec(worktree_path@, problem_statement@),
{
    let mut v: Vec<String> = Vec::new();
    v.push("--workspace".to_owned());
    v.push(worktree_path.to_owned());
    v.push("--problem-statement".to_owned());
    v.push(problem_statement.to_owned());
    v.push("--minimize-stdout-logs".to_owned());
    proof {
        assert(v@.map_values(|x: String| x@) =~= initial_args_spec(
            worktree_path@,
            problem_statement@,
        ));
    }
    v
}

/// The argument list for a follow-up turn: the same workspace and minimize
/// flags, no problem-statement flag — the prompt travels over standard
/// input instead.
pub open spec fn followup_args_spec(worktree_path: Seq<char>) -> Seq<Seq<char>> {
    seq!["--workspace"@, worktree_path, "--minimize-stdout-logs"@]
}

/// Build the argument list for a follow-up turn.
pub fn followup_args(worktree_path: &str) -> (r: Vec<String>)
    ensures
        r@.map_values(|x: String| x@) == followup_args_spec(worktree_path@),
{
    let mut v: Vec<String> = Vec::new();
    v.push("--workspace".to_owned());
    v.push(worktree_path.to_owned());
    v.push("--minimize-stdout-logs".to_owned());
    proof {
        assert(v@.map_values(|x: String| x@) =~= followup_args_spec(worktree_path@));
    }
    v
}

/// The environment override set for every launch: it disables the runtime
/// warning category that would otherwise pollute the captured log text.
pub fn launch_env_override() -> (r: (String, String))
    ensures
        r.0@ == "NODE_NO_WARNINGS"@,
        r.1@ == "1"@,
{
    ("NODE_NO_WARNINGS".to_owned(), "1".to_owned())
}

} // verus!
