//! Message and tool-call types shared by the decoder, the registry and the
//! orchestration loop.

use vstd::prelude::*;

use crate::args::{arg_model, ArgModel, ArgValue};

verus! {

/// Observable snapshot of the orchestrator's progress.
#[derive(Debug, Clone, Copy, PartialEq, Eq, Structural)]
pub enum AgentStatus {
    Idle,
    Thinking,
    ExecutingTool,
    Error,
}

/// A reconstructed request by the backend that one registered tool be run.
#[derive(Debug, PartialEq, Eq)]
pub struct ToolCall {
    pub id: String,
    pub name: String,
    pub arguments: ArgValue,
}

/// The model of a [`ToolCall`].
pub struct ToolCallModel {
    pub id: Seq<char>,
    pub name: Seq<char>,
    pub arguments: ArgModel,
}

impl View for ToolCall {
    type V = ToolCallModel;

    open spec fn view(&self) -> ToolCallModel {
        ToolCallModel { id: self.id@, name: self.name@, arguments: arg_model(self.arguments) }
    }
}

/// The models of a sequence of tool calls, in order.
pub open spec fn calls_model(calls: Seq<ToolCall>) -> Seq<ToolCallModel> {
    Seq::new(calls.len(), |i: int| calls[i]@)
}

/// The model of an optional tool-call list.
pub open spec fn opt_calls_model(calls: Option<Vec<ToolCall>>) -> Option<Seq<ToolCallModel>> {
    match calls {
        Some(cs) => Some(calls_model(cs@)),
        None => None,
    }
}

impl ToolCall {
    /// A structurally equal copy.
    pub fn duplicate(&self) -> (r: ToolCall)
        ensures
            r@ == self@,
    {
        ToolCall {
            id: self.id.clone(),
            name: self.name.clone(),
            arguments: self.arguments.duplicate(),
        }
    }
}

/// Copies a tool-call list entry by entry.
pub fn duplicate_calls(calls: &Vec<ToolCall>) -> (r: Vec<ToolCall>)
    ensures
        calls_model(r@) == calls_model(calls@),
{
    let mut out: Vec<ToolCall> = Vec::new();
    let n = calls.len();
    for i in 0..n
        invariant
            n == calls@.len(),
            out@.len() == i,
            forall|j: int| 0 <= j < i ==> (#[trigger] out@[j])@ == calls@[j]@,
    {
        out.push(calls[i].duplicate());
    }
    proof {
        assert(calls_model(out@) =~= calls_model(calls@));
    }
    out
}

/// A message the user typed.
#[derive(Debug, PartialEq, Eq)]
pub struct UserMessage {
    pub content: String,
}

/// One turn of backend output: its text, and the tool calls it requested.
#[derive(Debug, PartialEq, Eq)]
pub struct AssistantMessage {
    pub content: String,
    pub tool_calls: Option<Vec<ToolCall>>,
}

/// The output of one executed tool call, keyed by the call it answers.
#[derive(Debug, PartialEq, Eq)]
pub struct ToolResult {
    pub tool_call_id: String,
    pub content: String,
}

/// An instruction entry prepended to the history sent to the backend.
#[derive(Debug, PartialEq, Eq)]
pub struct SystemMessage {
    pub content: String,
}

/// One entry of the conversation log, in chronological order.
#[derive(Debug, PartialEq, Eq)]
pub enum ConversationEntry {
    User(UserMessage),
    Assistant(AssistantMessage),
    Tool(ToolResult),
    System(SystemMessage),
}

/// The model of a [`ConversationEntry`].
pub enum EntryModel {
    User { content: Seq<char> },
    Assistant { content: Seq<char>, tool_calls: Option<Seq<ToolCallModel>> },
    Tool { tool_call_id: Seq<char>, content: Seq<char> },
    System { content: Seq<char> },
}

impl View for ConversationEntry {
    type V = EntryModel;

    open spec fn view(&self) -> EntryModel {
        match self {
            ConversationEntry::User(m) => EntryModel::User { content: m.content@ },
            ConversationEntry::Assistant(m) => EntryModel::Assistant {
                content: m.content@,
                tool_calls: opt_calls_model(m.tool_calls),
            },
            ConversationEntry::Tool(m) => EntryModel::Tool {
                tool_call_id: m.tool_call_id@,
                content: m.content@,
            },
            ConversationEntry::System(m) => EntryModel::System { content: m.content@ },
        }
    }
}

/// The models of a conversation log, in order.
pub open spec fn entries_model(entries: Seq<ConversationEntry>) -> Seq<EntryModel> {
    Seq::new(entries.len(), |i: int| entries[i]@)
}

impl ConversationEntry {
    /// A structurally equal copy.
    pub fn duplicate(&self) -> (r: ConversationEntry)
        ensures
            r@ == self@,
    {
        match self {
            ConversationEntry::User(m) => ConversationEntry::User(
                UserMessage { content: m.content.clone() },
            ),
            ConversationEntry::Assistant(m) => {
                let calls = match &m.tool_calls {
                    Some(cs) => Some(duplicate_calls(cs)),
                    None => None,
                };
                ConversationEntry::Assistant(
                    AssistantMessage { content: m.content.clone(), tool_calls: calls },
                )
            },
            ConversationEntry::Tool(m) => ConversationEntry::Tool(
                ToolResult { tool_call_id: m.tool_call_id.clone(), content: m.content.clone() },
            ),
            ConversationEntry::System(m) => ConversationEntry::System(
                SystemMessage { content: m.content.clone() },
            ),
        }
    }
}

/// What one registered tool exposes to the backend's tool catalogue.
#[derive(Debug, PartialEq, Eq)]
pub struct ToolDefinition {
    pub name: String,
    pub description: String,
    pub parameters: ArgValue,
}

/// The model of a [`ToolDefinition`].
pub struct ToolDefModel {
    pub name: Seq<char>,
    pub description: Seq<char>,
    pub parameters: ArgModel,
}

/// The models of a definition list, in order.
pub open spec fn defs_model(s: Seq<ToolDefinition>) -> Seq<ToolDefModel> {
    Seq::new(s.len(), |i: int| s[i]@)
}

impl View for ToolDefinition {
    type V = ToolDefModel;

    open spec fn view(&self) -> ToolDefModel {
        ToolDefModel {
            name: self.name@,
            description: self.description@,
            parameters: arg_model(self.parameters),
        }
    }
}

} // verus!
