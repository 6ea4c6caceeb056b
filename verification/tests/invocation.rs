use aaa_executor::invocation::{build_problem_statement, followup_args, initial_args,
    launch_env_override};

#[test]
fn problem_statement_with_description() {
    let s = build_problem_statement("Add login", Some("OAuth based"));
    assert_eq!(
        s,
        "Task: Add login - Description: OAuth based - Please help me implement the task in the codebase. Analyze the current code structure and make the necessary changes to fulfill the requirements."
    );
}

#[test]
fn problem_statement_without_description() {
    let s = build_problem_statement("Add login", None);
    assert_eq!(
        s,
        "Task: Add login - Please help me implement the task in the codebase. Analyze the current code structure and make the necessary changes to fulfill the requirements."
    );
}

#[test]
fn initial_args_shape() {
    let args = initial_args("/tmp/wt", "do the thing");
    assert_eq!(
        args,
        vec![
            "--workspace",
            "/tmp/wt",
            "--problem-statement",
            "do the thing",
            "--minimize-stdout-logs",
        ]
    );
}

#[test]
fn followup_args_shape() {
    let args = followup_args("/tmp/wt");
    assert_eq!(args, vec!["--workspace", "/tmp/wt", "--minimize-stdout-logs"]);
}

#[test]
fn launch_env_override_disables_node_warnings() {
    let (key, value) = launch_env_override();
    assert_eq!(key, "NODE_NO_WARNINGS");
    assert_eq!(value, "1");
}
