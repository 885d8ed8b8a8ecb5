//! A tool-calling conversational orchestrator.
//!
//! The library decodes an incrementally delivered backend response into
//! protocol events, reassembles tool-call requests that arrive split across
//! many delivery fragments, dispatches them to registered tool handlers, and
//! drives a bounded multi-turn exchange until the backend returns a final
//! answer or the turn budget is exhausted.

pub mod agent;
pub mod args;
pub mod assembler;
pub mod decoder;
pub mod flight_tools;
pub mod json;
pub mod protocol;
pub mod store;
pub mod stream;
pub mod tools;

pub use agent::Agent;
pub use flight_tools::{GetFlightNumberTool, GetTicketPriceTool};
pub use protocol::{AgentStatus, AssistantMessage, ToolCall, ToolResult, UserMessage};
pub use store::AgentState;
pub use stream::{ChatResponse, SseEvent};
pub use tools::{ToolExecutor, ToolRegistry};
