//! The data model of a normalized conversation: typed entries, the closed
//! set of tool-action payloads, and the conversation record itself, each
//! with a mathematical view over character sequences.

use vstd::prelude::*;

verus! {

/// A typed tool-invocation payload. Each field is a string extracted from
/// the log line; no further validation is performed.
pub enum ActionType {
    FileRead { path: String },
    FileWrite { path: String },
    CommandRun { command: String },
    Search { query: String },
    TaskCreate { description: String },
    WebFetch { url: String },
    Other { description: String },
}

/// The view of an [`ActionType`]: the same variants over character
/// sequences.
pub enum ActionV {
    FileRead { path: Seq<char> },
    FileWrite { path: Seq<char> },
    CommandRun { command: Seq<char> },
    Search { query: Seq<char> },
    TaskCreate { description: Seq<char> },
    WebFetch { url: Seq<char> },
    Other { description: Seq<char> },
}

impl View for ActionType {
    type V = ActionV;

    open spec fn view(&self) -> ActionV {
        match self {
            ActionType::FileRead { path } => ActionV::FileRead { path: path@ },
            ActionType::FileWrite { path } => ActionV::FileWrite { path: path@ },
            ActionType::CommandRun { command } => ActionV::CommandRun { command: command@ },
            ActionType::Search { query } => ActionV::Search { query: query@ },
            ActionType::TaskCreate { description } => ActionV::TaskCreate {
                description: description@,
            },
            ActionType::WebFetch { url } => ActionV::WebFetch { url: url@ },
            ActionType::Other { description } => ActionV::Other { description: description@ },
        }
    }
}

/// The semantic category of one log line. `ToolUse` carries the name of the
/// tool and the typed action extracted from the line.
pub enum NormalizedEntryType {
    SystemMessage,
    UserMessage,
    AssistantMessage,
    ToolUse { tool_name: String, action_type: ActionType },
}

/// The view of a [`NormalizedEntryType`].
pub enum EntryTypeV {
    SystemMessage,
    UserMessage,
    AssistantMessage,
    ToolUse { tool_name: Seq<char>, action_type: ActionV },
}

impl View for NormalizedEntryType {
    type V = EntryTypeV;

    open spec fn view(&self) -> EntryTypeV {
        match self {
            NormalizedEntryType::SystemMessage => EntryTypeV::SystemMessage,
            NormalizedEntryType::UserMessage => EntryTypeV::UserMessage,
            NormalizedEntryType::AssistantMessage => EntryTypeV::AssistantMessage,
            NormalizedEntryType::ToolUse { tool_name, action_type } => EntryTypeV::ToolUse {
                tool_name: tool_name@,
                action_type: action_type@,
            },
        }
    }
}

/// One classified line of log output. `content` is the trimmed original
/// line, verbatim; `timestamp` and `metadata` are reserved and never set by
/// this pipeline.
pub struct NormalizedEntry {
    pub timestamp: Option<String>,
    pub entry_type: NormalizedEntryType,
    pub content: String,
    pub metadata: Option<String>,
}

/// The view of a [`NormalizedEntry`].
pub struct EntryV {
    pub timestamp: Option<Seq<char>>,
    pub entry_type: EntryTypeV,
    pub content: Seq<char>,
    pub metadata: Option<Seq<char>>,
}

impl View for NormalizedEntry {
    type V = EntryV;

    open spec fn view(&self) -> EntryV {
        EntryV {
            timestamp: match self.timestamp {
                Some(t) => Some(t@),
                None => None,
            },
            entry_type: self.entry_type@,
            content: self.content@,
            metadata: match self.metadata {
                Some(m) => Some(m@),
                None => None,
            },
        }
    }
}

/// The result of normalizing one log blob: the classified entries in input
/// line order, together with the identity of the producing executor.
/// `session_id`, `prompt` and `summary` are left unset by this pipeline.
pub struct NormalizedConversation {
    pub entries: Vec<NormalizedEntry>,
    pub session_id: Option<String>,
    pub executor_type: String,
    pub prompt: Option<String>,
    pub summary: Option<String>,
}

/// The view of a [`NormalizedConversation`].
pub struct ConversationV {
    pub entries: Seq<EntryV>,
    pub session_id: Option<Seq<char>>,
    pub executor_type: Seq<char>,
    pub prompt: Option<Seq<char>>,
    pub summary: Option<Seq<char>>,
}

impl View for NormalizedConversation {
    type V = ConversationV;

    open spec fn view(&self) -> ConversationV {
        ConversationV {
            entries: self.entries@.map_values(|e: NormalizedEntry| e@),
            session_id: match self.session_id {
                Some(s) => Some(s@),
                None => None,
            },
            executor_type: self.executor_type@,
            prompt: match self.prompt {
                Some(p) => Some(p@),
                None => None,
            },
            summary: match self.summary {
                Some(s) => Some(s@),
                None => None,
            },
        }
    }
}

} // verus!
