use aaa_executor::entry::{ActionType, NormalizedEntryType};
use aaa_executor::executor::AaaExecutor;

#[test]
fn test_make_path_relative() {
    let executor = AaaExecutor::new();

    // Test with relative path (should remain unchanged)
    assert_eq!(
        executor.make_path_relative("src/main.rs", "/tmp/test-worktree"),
        "src/main.rs"
    );

    // Test with absolute path (should become relative if possible)
    let test_worktree = "/tmp/test-worktree";
    let absolute_path = format!("{}/src/main.rs", test_worktree);
    let result = executor.make_path_relative(&absolute_path, test_worktree);
    assert_eq!(result, "src/main.rs");
}

#[test]
fn test_is_tool_usage() {
    let executor = AaaExecutor::new();

    assert!(executor.is_tool_usage("Reading file: src/main.rs"));
    assert!(executor.is_tool_usage("Writing file: output.txt"));
    assert!(executor.is_tool_usage("Running command: npm install"));
    assert!(!executor.is_tool_usage("This is just a regular message"));
}

#[test]
fn make_path_relative_not_under_root_unchanged() {
    let executor = AaaExecutor::new();
    assert_eq!(
        executor.make_path_relative("/etc/hosts", "/tmp/wt"),
        "/etc/hosts"
    );
}

#[test]
fn make_path_relative_is_idempotent() {
    let executor = AaaExecutor::new();
    let once = executor.make_path_relative("/tmp/wt/a/b.txt", "/tmp/wt");
    let twice = executor.make_path_relative(&once, "/tmp/wt");
    assert_eq!(once, "a/b.txt");
    assert_eq!(twice, once);
}

#[test]
fn make_path_relative_stops_at_component_boundaries() {
    let executor = AaaExecutor::new();
    // The root matches only a textual prefix, not whole components: the
    // path lies beside the root, so it comes back unchanged.
    assert_eq!(executor.make_path_relative("/ab", "/a"), "/ab");
    assert_eq!(
        executor.make_path_relative("/tmp/wtx2/f", "/tmp/wtx"),
        "/tmp/wtx2/f"
    );
}

#[test]
fn make_path_relative_with_empty_root_is_unchanged() {
    let executor = AaaExecutor::new();
    assert_eq!(executor.make_path_relative("/a/b", ""), "/a/b");
}

#[test]
fn make_path_relative_accepts_root_with_trailing_separator() {
    let executor = AaaExecutor::new();
    assert_eq!(executor.make_path_relative("/tmp/wt/src", "/tmp/wt/"), "src");
}

#[test]
fn unicode_whitespace_only_lines_are_blank() {
    let executor = AaaExecutor::new();
    // Non-breaking space and ideographic space count as whitespace, as with
    // str::trim.
    let conv = executor
        .normalize_logs("\u{a0}\u{a0}\n\u{3000}\nreal line\n", "/tmp/wt")
        .unwrap();
    assert_eq!(conv.entries.len(), 1);
    assert_eq!(conv.entries[0].content, "real line");
}

#[test]
fn make_path_relative_root_itself_becomes_empty() {
    let executor = AaaExecutor::new();
    assert_eq!(executor.make_path_relative("/tmp/wt", "/tmp/wt"), "");
}

#[test]
fn reading_file_line_yields_file_read_with_relative_path() {
    let executor = AaaExecutor::new();
    let conv = executor
        .normalize_logs("Reading file: src/main.x", "/tmp/wt")
        .unwrap();
    assert_eq!(conv.entries.len(), 1);
    assert_eq!(conv.entries[0].content, "Reading file: src/main.x");
    match &conv.entries[0].entry_type {
        NormalizedEntryType::ToolUse {
            tool_name,
            action_type,
        } => {
            assert_eq!(tool_name, "file_read");
            match action_type {
                ActionType::FileRead { path } => assert_eq!(path, "src/main.x"),
                _ => panic!("expected FileRead"),
            }
        }
        _ => panic!("expected ToolUse"),
    }
}

#[test]
fn reading_file_line_with_absolute_path_is_relativized() {
    let executor = AaaExecutor::new();
    let conv = executor
        .normalize_logs("Reading file: /tmp/wt/src/main.x", "/tmp/wt")
        .unwrap();
    match &conv.entries[0].entry_type {
        NormalizedEntryType::ToolUse {
            tool_name,
            action_type,
        } => {
            assert_eq!(tool_name, "file_read");
            match action_type {
                ActionType::FileRead { path } => assert_eq!(path, "src/main.x"),
                _ => panic!("expected FileRead"),
            }
        }
        _ => panic!("expected ToolUse"),
    }
}

#[test]
fn running_command_line_yields_command_run() {
    let executor = AaaExecutor::new();
    let conv = executor
        .normalize_logs("Running command: npm install", "/tmp/wt")
        .unwrap();
    match &conv.entries[0].entry_type {
        NormalizedEntryType::ToolUse {
            tool_name,
            action_type,
        } => {
            assert_eq!(tool_name, "command_run");
            match action_type {
                ActionType::CommandRun { command } => assert_eq!(command, "npm install"),
                _ => panic!("expected CommandRun"),
            }
        }
        _ => panic!("expected ToolUse"),
    }
}

#[test]
fn writing_file_line_yields_file_write() {
    let executor = AaaExecutor::new();
    let info = executor.extract_tool_info("Writing file: /tmp/wt/out.txt", "/tmp/wt");
    assert_eq!(info.0, "file_write");
    match info.1 {
        ActionType::FileWrite { path } => assert_eq!(path, "out.txt"),
        _ => panic!("expected FileWrite"),
    }
}

#[test]
fn searching_line_yields_search() {
    let executor = AaaExecutor::new();
    let info = executor.extract_tool_info("Searching for: TODO markers", "/tmp/wt");
    assert_eq!(info.0, "search");
    match info.1 {
        ActionType::Search { query } => assert_eq!(query, "TODO markers"),
        _ => panic!("expected Search"),
    }
}

#[test]
fn creating_task_line_yields_task_create() {
    let executor = AaaExecutor::new();
    let info = executor.extract_tool_info("Creating task: refactor parser", "/tmp/wt");
    assert_eq!(info.0, "task_create");
    match info.1 {
        ActionType::TaskCreate { description } => assert_eq!(description, "refactor parser"),
        _ => panic!("expected TaskCreate"),
    }
}

#[test]
fn fetching_url_line_yields_web_fetch() {
    let executor = AaaExecutor::new();
    let info = executor.extract_tool_info("Fetching URL: https://example.com", "/tmp/wt");
    assert_eq!(info.0, "web_fetch");
    match info.1 {
        ActionType::WebFetch { url } => assert_eq!(url, "https://example.com"),
        _ => panic!("expected WebFetch"),
    }
}

#[test]
fn unmarked_line_yields_other_action() {
    let executor = AaaExecutor::new();
    let info = executor.extract_tool_info("no marker here", "/tmp/wt");
    assert_eq!(info.0, "unknown");
    match info.1 {
        ActionType::Other { description } => assert_eq!(description, "no marker here"),
        _ => panic!("expected Other"),
    }
}

#[test]
fn regular_message_yields_assistant_message() {
    let executor = AaaExecutor::new();
    let conv = executor
        .normalize_logs("This is just a regular message", "/tmp/wt")
        .unwrap();
    assert_eq!(conv.entries.len(), 1);
    assert!(matches!(
        conv.entries[0].entry_type,
        NormalizedEntryType::AssistantMessage
    ));
}

#[test]
fn empty_blob_yields_no_entries_and_no_session() {
    let executor = AaaExecutor::new();
    let conv = executor.normalize_logs("", "/tmp/wt").unwrap();
    assert_eq!(conv.entries.len(), 0);
    assert!(conv.session_id.is_none());
    assert!(conv.prompt.is_none());
    assert!(conv.summary.is_none());
    assert_eq!(conv.executor_type, "AAA");
}

#[test]
fn error_prefix_wins_over_tool_usage_marker() {
    let executor = AaaExecutor::new();
    let conv = executor
        .normalize_logs("Error: Running command: rm -rf", "/tmp/wt")
        .unwrap();
    assert!(matches!(
        conv.entries[0].entry_type,
        NormalizedEntryType::SystemMessage
    ));
}

#[test]
fn glyph_prefixes_yield_system_messages() {
    let executor = AaaExecutor::new();
    let conv = executor
        .normalize_logs("\u{274c} failed\n\u{2705} done\n\u{1f680} started\n\u{1f4e6} packed", "/tmp/wt")
        .unwrap();
    assert_eq!(conv.entries.len(), 4);
    for e in &conv.entries {
        assert!(matches!(e.entry_type, NormalizedEntryType::SystemMessage));
    }
}

#[test]
fn user_input_prefixes_yield_user_messages() {
    let executor = AaaExecutor::new();
    let conv = executor
        .normalize_logs("User input: hi\nEnter your message: go on", "/tmp/wt")
        .unwrap();
    assert_eq!(conv.entries.len(), 2);
    for e in &conv.entries {
        assert!(matches!(e.entry_type, NormalizedEntryType::UserMessage));
    }
}

#[test]
fn blank_lines_are_skipped_and_order_is_kept() {
    let executor = AaaExecutor::new();
    let logs = "first\n\n   \t  \nsecond\n\nError: third\n";
    let conv = executor.normalize_logs(logs, "/tmp/wt").unwrap();
    assert_eq!(conv.entries.len(), 3);
    assert_eq!(conv.entries[0].content, "first");
    assert_eq!(conv.entries[1].content, "second");
    assert_eq!(conv.entries[2].content, "Error: third");
}

#[test]
fn content_is_the_trimmed_line_verbatim() {
    let executor = AaaExecutor::new();
    let conv = executor.normalize_logs("   hello world  \t", "/tmp/wt").unwrap();
    assert_eq!(conv.entries.len(), 1);
    assert_eq!(conv.entries[0].content, "hello world");
    assert!(conv.entries[0].timestamp.is_none());
    assert!(conv.entries[0].metadata.is_none());
}

#[test]
fn all_blank_blob_yields_no_entries() {
    let executor = AaaExecutor::new();
    let conv = executor.normalize_logs("\n  \n\t\n", "/tmp/wt").unwrap();
    assert_eq!(conv.entries.len(), 0);
}

#[test]
fn extractors_fall_back_to_whole_trimmed_line_without_delimiter() {
    let executor = AaaExecutor::new();
    assert_eq!(executor.extract_command_from_line("no delimiter"), "no delimiter");
    assert_eq!(executor.extract_query_from_line("  padded  "), "padded");
    assert_eq!(executor.extract_description_from_line("plain"), "plain");
    assert_eq!(executor.extract_url_from_line("plain"), "plain");
}

#[test]
fn extractors_split_at_the_first_delimiter_only() {
    let executor = AaaExecutor::new();
    assert_eq!(
        executor.extract_url_from_line("Fetching URL: https://example.com"),
        "https://example.com"
    );
    assert_eq!(
        executor.extract_command_from_line("Running command: echo a:b"),
        "echo a:b"
    );
}

#[test]
fn with_command_sets_the_executor_type_tag() {
    let executor = AaaExecutor::with_command("CustomAAA".to_string(), "custom-aaa".to_string());
    let conv = executor.normalize_logs("hi", "/tmp/wt").unwrap();
    assert_eq!(conv.executor_type, "CustomAAA");
    assert_eq!(executor.command, "custom-aaa");
}

#[test]
fn default_matches_new() {
    let executor = AaaExecutor::default();
    assert_eq!(executor.executor_type, "AAA");
    assert_eq!(executor.command, "aaa");
}
