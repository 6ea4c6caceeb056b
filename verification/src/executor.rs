//! The executor adapter: a named external coding-agent CLI together with
//! the log-normalization pipeline that turns its raw text output into a
//! structured conversation record.

use vstd::prelude::*;
use crate::classify::{action_spec, classify_spec, is_tool_usage_spec, path_payload_spec,
    tool_name_spec};
use crate::entry::{ActionType, ConversationV, NormalizedConversation, NormalizedEntry,
    NormalizedEntryType};
use crate::extract::{field_after_colon, field_after_colon_spec};
use crate::normalize::{entries_of_segments, entry_of, line_segments, normalize_spec, split_lines};
use crate::path::{relativize_path, relativize_spec};
use crate::text::{contains_str, starts_with_str, trim_spec, trim_str};

verus! {

/// An executor that runs the AAA (Assistant Agent) CLI to process tasks and
/// normalizes its plain-text output.
pub struct AaaExecutor {
    pub executor_type: String,
    pub command: String,
}

impl Default for AaaExecutor {
    fn default() -> (r: Self)
        ensures
            r.executor_type@ == "AAA"@,
            r.command@ == "aaa"@,
    {
        AaaExecutor::new()
    }
}

impl AaaExecutor {
    /// Create a new executor with the default type tag and command name.
    pub fn new() -> (r: AaaExecutor)
        ensures
            r.executor_type@ == "AAA"@,
            r.command@ == "aaa"@,
    {
        AaaExecutor { executor_type: "AAA".to_owned(), command: "aaa".to_owned() }
    }

    /// Create a new executor with a custom type tag and command name.
    pub fn with_command(executor_type: String, command: String) -> (r: AaaExecutor)
        ensures
            r.executor_type == executor_type,
            r.command == command,
    {
        AaaExecutor { executor_type, command }
    }

    /// Check whether a line indicates tool usage: it contains one of the six
    /// marker substrings of the dispatch table.
    pub fn is_tool_usage(&self, line: &str) -> (b: bool)
        ensures
            b == is_tool_usage_spec(line@),
    {
        contains_str(line, "Reading file:") || contains_str(line, "Writing file:")
            || contains_str(line, "Running command:") || contains_str(line, "Searching for:")
            || contains_str(line, "Creating task:") || contains_str(line, "Fetching URL:")
    }

    /// Extract the tool name and typed action payload from a tool-usage
    /// line, first marker match wins.
    pub fn extract_tool_info(&self, line: &str, worktree_path: &str) -> (r: (String, ActionType))
        ensures
            r.0@ == tool_name_spec(line@),
            r.1@ == action_spec(line@, worktree_path@),
    {
        if contains_str(line, "Reading file:") {
            let path = self.extract_path_from_line(line, worktree_path);
            ("file_read".to_owned(), ActionType::FileRead { path })
        } else if contains_str(line, "Writing file:") {
            let path = self.extract_path_from_line(line, worktree_path);
            ("file_write".to_owned(), ActionType::FileWrite { path })
        } else if contains_str(line, "Running command:") {
            let command = self.extract_command_from_line(line);
            ("command_run".to_owned(), ActionType::CommandRun { command })
        } else if contains_str(line, "Searching for:") {
            let query = self.extract_query_from_line(line);
            ("search".to_owned(), ActionType::Search { query })
        } else if contains_str(line, "Creating task:") {
            let description = self.extract_description_from_line(line);
            ("task_create".to_owned(), ActionType::TaskCreate { description })
        } else if contains_str(line, "Fetching URL:") {
            let url = self.extract_url_from_line(line);
            ("web_fetch".to_owned(), ActionType::WebFetch { url })
        } else {
            ("unknown".to_owned(), ActionType::Other { description: line.to_owned() })
        }
    }

    /// Extract a file path from a log line: the field after the delimiter,
    /// relativized against the worktree root.
    pub fn extract_path_from_line(&self, line: &str, worktree_path: &str) -> (r: String)
        ensures
            r@ == path_payload_spec(line@, worktree_path@),
    {
        let field = field_after_colon(line);
        relativize_path(field, worktree_path)
    }

    /// Extract a shell command from a log line: the field after the
    /// delimiter, verbatim.
    pub fn extract_command_from_line(&self, line: &str) -> (r: String)
        ensures
            r@ == field_after_colon_spec(line@),
    {
        field_after_colon(line).to_owned()
    }

    /// Extract a search query from a log line: the field after the
    /// delimiter, verbatim.
    pub fn extract_query_from_line(&self, line: &str) -> (r: String)
        ensures
            r@ == field_after_colon_spec(line@),
    {
        field_after_colon(line).to_owned()
    }

    /// Extract a task description from a log line: the field after the
    /// delimiter, verbatim.
    pub fn extract_description_from_line(&self, line: &str) -> (r: String)
        ensures
            r@ == field_after_colon_spec(line@),
    {
        field_after_colon(line).to_owned()
    }

    /// Extract a URL from a log line: the field after the delimiter,
    /// verbatim.
    pub fn extract_url_from_line(&self, line: &str) -> (r: String)
        ensures
            r@ == field_after_colon_spec(line@),
    {
        field_after_colon(line).to_owned()
    }

    /// Convert an absolute path under the worktree root to a relative path;
    /// any other path comes back unchanged.
    pub fn make_path_relative(&self, path: &str, worktree_path: &str) -> (r: String)
        ensures
            r@ == relativize_spec(path@, worktree_path@),
    {
        relativize_path(path, worktree_path)
    }

    /// Assign a trimmed line its entry kind, by the ordered rule list. Total
    /// over all strings: unrecognized content falls through to the
    /// assistant-message kind.
    pub fn classify_line(&self, trimmed: &str, worktree_path: &str) -> (r: NormalizedEntryType)
        ensures
            r@ == classify_spec(trimmed@, worktree_path@),
    {
        if starts_with_str(trimmed, "Error:") || starts_with_str(trimmed, "\u{274c}") {
            NormalizedEntryType::SystemMessage
        } else if starts_with_str(trimmed, "\u{2705}") || starts_with_str(trimmed, "\u{1f680}")
            || starts_with_str(trimmed, "\u{1f4e6}") {
            NormalizedEntryType::SystemMessage
        } else if starts_with_str(trimmed, "User input:") || starts_with_str(
            trimmed,
            "Enter your message:",
        ) {
            NormalizedEntryType::UserMessage
        } else if self.is_tool_usage(trimmed) {
            let info = self.extract_tool_info(trimmed, worktree_path);
            NormalizedEntryType::ToolUse { tool_name: info.0, action_type: info.1 }
        } else {
            NormalizedEntryType::AssistantMessage
        }
    }

    /// Normalize a raw log blob into a conversation record: every non-blank
    /// line, trimmed and classified, in input order; the session id, prompt
    /// and summary unset. Total over any text — the transformation never
    /// fails.
    pub fn normalize_logs(&self, logs: &str, worktree_path: &str) -> (r: Result<
        NormalizedConversation,
        String,
    >)
        ensures
            r matches Ok(conv) && conv@ == (ConversationV {
                entries: normalize_spec(logs@, worktree_path@),
                session_id: None,
                executor_type: self.executor_type@,
                prompt: None,
                summary: None,
            }),
    {
        let lines = split_lines(logs);
        let ghost segs = line_segments(logs@);
        let ghost root = worktree_path@;
        let mut entries: Vec<NormalizedEntry> = Vec::new();
        let mut idx: usize = 0;
        proof {
            assert(segs.skip(0) =~= segs);
            assert(entries@.map_values(|e: NormalizedEntry| e@) + entries_of_segments(
                segs,
                root,
            ) =~= entries_of_segments(segs, root));
        }
        while idx < lines.len()
            invariant
                idx <= lines@.len(),
                lines@.map_values(|x: String| x@) == segs,
                root == worktree_path@,
                entries@.map_values(|e: NormalizedEntry| e@) + entries_of_segments(
                    segs.skip(idx as int),
                    root,
                ) == entries_of_segments(segs, root),
            decreases lines@.len() - idx,
        {
            proof {
                assert(lines@.map_values(|x: String| x@)[idx as int] == lines@[idx as int]@);
                assert(segs.skip(idx as int).drop_first() =~= segs.skip(idx as int + 1));
                assert(segs.skip(idx as int)[0] == segs[idx as int]);
            }
            let trimmed = trim_str(lines[idx].as_str());
            if trimmed.unicode_len() == 0 {
                proof {
                    assert(entries_of_segments(segs.skip(idx as int), root)
                        == entries_of_segments(segs.skip(idx as int + 1), root));
                }
            } else {
                let entry_type = self.classify_line(trimmed, worktree_path);
                let content = trimmed.to_owned();
                let entry = NormalizedEntry { timestamp: None, entry_type, content, metadata: None };
                proof {
                    assert(entry@ == entry_of(trim_spec(segs[idx as int]), root));
                    assert(entries@.push(entry).map_values(|e: NormalizedEntry| e@)
                        =~= entries@.map_values(|e: NormalizedEntry| e@).push(entry@));
                    assert(entries@.map_values(|e: NormalizedEntry| e@).push(entry@)
                        + entries_of_segments(segs.skip(idx as int + 1), root) =~= entries@.map_values(
                        |e: NormalizedEntry| e@,
                    ) + entries_of_segments(segs.skip(idx as int), root));
                }
                entries.push(entry);
            }
            idx = idx + 1;
        }
        proof {
            assert(segs.skip(idx as int) =~= Seq::<Seq<char>>::empty());
            assert(entries@.map_values(|e: NormalizedEntry| e@) + entries_of_segments(
                segs.skip(idx as int),
                root,
            ) =~= entries@.map_values(|e: NormalizedEntry| e@));
        }
        Ok(
            NormalizedConversation {
                entries,
                session_id: None,
                executor_type: self.executor_type.clone(),
                prompt: None,
                summary: None,
            },
        )
    }
}

} // verus!
