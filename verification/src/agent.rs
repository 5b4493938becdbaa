//! Messages between the user and the agent.

use vstd::prelude::*;
use vstd::string::StringExecFns;
use std::collections::HashMap;

verus! {

/// A message sent to the agent.
#[derive(Debug)]
pub struct AgentMessage {
    pub content: String,
    pub attachments: Option<Vec<String>>,
    pub context: Option<HashMap<String, String>>,
}

/// A call of a tool that the agent made.
#[derive(Debug)]
pub struct ToolCall {
    pub name: String,
    pub arguments: HashMap<String, serde_json::Value>,
    pub result: Option<String>,
}

/// What the agent answered.
#[derive(Debug)]
pub struct AgentResponse {
    pub content: String,
    pub tool_calls: Option<Vec<ToolCall>>,
    pub finished: bool,
}

/// What stands before the message in an acknowledgement.
pub open spec fn acknowledgement_prefix() -> Seq<char> {
    "Received: "@
}

/// Acknowledges a message: the answer repeats its content after a fixed
/// prefix, names no tool calls and is finished. Attachments and context are
/// not looked at.
pub fn send_message(message: AgentMessage) -> (r: Result<AgentResponse, String>)
    ensures
        r is Ok,
        r->Ok_0.content@ == acknowledgement_prefix() + message.content@,
        r->Ok_0.tool_calls is None,
        r->Ok_0.finished,
{
    let content = String::from_str("Received: ").concat(message.content.as_str());
    Ok(AgentResponse { content, tool_calls: None, finished: true })
}

} // verus!
