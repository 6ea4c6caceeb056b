//! Line classification: the ordered, first-match-wins rule list that
//! assigns each non-blank line one of the four entry kinds, and the
//! tool-usage dispatch table that extracts a typed action payload. The six
//! marker substrings are the single source of truth shared between the
//! "is this tool usage" predicate and the dispatch itself.

use vstd::prelude::*;
use crate::entry::{ActionV, EntryTypeV};
use crate::extract::field_after_colon_spec;
use crate::path::relativize_spec;
use crate::text::contains_seq;

verus! {

/// Whether a line indicates tool usage: it contains one of the six fixed
/// marker substrings.
pub open spec fn is_tool_usage_spec(l: Seq<char>) -> bool {
    ||| contains_seq(l, "Reading file:"@)
    ||| contains_seq(l, "Writing file:"@)
    ||| contains_seq(l, "Running command:"@)
    ||| contains_seq(l, "Searching for:"@)
    ||| contains_seq(l, "Creating task:"@)
    ||| contains_seq(l, "Fetching URL:"@)
}

/// The payload of a file-path marker line: the extracted field, relativized
/// against the worktree root.
pub open spec fn path_payload_spec(l: Seq<char>, root: Seq<char>) -> Seq<char> {
    relativize_spec(field_after_colon_spec(l), root)
}

/// The tool name of a tool-usage line, by the dispatch table's precedence
/// order; `unknown` when no marker matches.
pub open spec fn tool_name_spec(l: Seq<char>) -> Seq<char> {
    if contains_seq(l, "Reading file:"@) {
        "file_read"@
    } else if contains_seq(l, "Writing file:"@) {
        "file_write"@
    } else if contains_seq(l, "Running command:"@) {
        "command_run"@
    } else if contains_seq(l, "Searching for:"@) {
        "search"@
    } else if contains_seq(l, "Creating task:"@) {
        "task_create"@
    } else if contains_seq(l, "Fetching URL:"@) {
        "web_fetch"@
    } else {
        "unknown"@
    }
}

/// The typed action of a tool-usage line, by the dispatch table's
/// precedence order; the whole line as an `Other` description when no
/// marker matches.
pub open spec fn action_spec(l: Seq<char>, root: Seq<char>) -> ActionV {
    if contains_seq(l, "Reading file:"@) {
        ActionV::FileRead { path: path_payload_spec(l, root) }
    } else if contains_seq(l, "Writing file:"@) {
        ActionV::FileWrite { path: path_payload_spec(l, root) }
    } else if contains_seq(l, "Running command:"@) {
        ActionV::CommandRun { command: field_after_colon_spec(l) }
    } else if contains_seq(l, "Searching for:"@) {
        ActionV::Search { query: field_after_colon_spec(l) }
    } else if contains_seq(l, "Creating task:"@) {
        ActionV::TaskCreate { description: field_after_colon_spec(l) }
    } else if contains_seq(l, "Fetching URL:"@) {
        ActionV::WebFetch { url: field_after_colon_spec(l) }
    } else {
        ActionV::Other { description: l }
    }
}

/// The entry kind of a trimmed line, by the ordered rule list:
/// error prefixes, then status glyphs, then user-input prefixes, then tool
/// usage, and otherwise the assistant-message fallback.
pub open spec fn classify_spec(t: Seq<char>, root: Seq<char>) -> EntryTypeV {
    if "Error:"@.is_prefix_of(t) || "\u{274c}"@.is_prefix_of(t) {
        EntryTypeV::SystemMessage
    } else if "\u{2705}"@.is_prefix_of(t) || "\u{1f680}"@.is_prefix_of(t) || "\u{1f4e6}"@.is_prefix_of(t) {
        EntryTypeV::SystemMessage
    } else if "User input:"@.is_prefix_of(t) || "Enter your message:"@.is_prefix_of(t) {
        EntryTypeV::UserMessage
    } else if is_tool_usage_spec(t) {
        EntryTypeV::ToolUse { tool_name: tool_name_spec(t), action_type: action_spec(t, root) }
    } else {
        EntryTypeV::AssistantMessage
    }
}

/// Classification is total: every line, whatever its content, falls into
/// exactly one of the four entry kinds.
pub proof fn lemma_classify_total(t: Seq<char>, root: Seq<char>)
    ensures
        classify_spec(t, root) is SystemMessage || classify_spec(t, root) is UserMessage
            || classify_spec(t, root) is AssistantMessage || classify_spec(t, root) is ToolUse,
{
}

/// Rule precedence: a line that starts with an error prefix is a system
/// message even when it also carries a tool-usage marker.
pub proof fn lemma_error_prefix_beats_tool_usage(t: Seq<char>, root: Seq<char>)
    requires
        "Error:"@.is_prefix_of(t) || "\u{274c}"@.is_prefix_of(t),
    ensures
        classify_spec(t, root) is SystemMessage,
{
}

} // verus!
