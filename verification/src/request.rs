//! The outbound chat request: one user message holding the built prompt, the
//! command tool as the only callable, and the tool choice forced to
//! `Required` so the model must answer with a tool call.

use vstd::prelude::*;
use crate::schema;
use crate::schema::ToolDefinition;

verus! {

/// Who speaks a message.
pub enum Role {
    User,
}

/// One message of the request.
pub struct Message {
    pub role: Role,
    pub content: String,
}

/// The request-level directive on how the model must answer.
pub enum ToolChoice {
    Required,
}

/// A fully built chat request; never mutated after dispatch.
pub struct ChatRequest {
    pub model: String,
    pub messages: Vec<Message>,
    pub tool_choice: ToolChoice,
    pub tools: Vec<ToolDefinition>,
}

/// Builds the request for one invocation: the given model, exactly one user
/// message carrying the prompt, the tool choice `Required`, and the command
/// tool as the single registered tool.
pub fn build_request(model: &String, prompt: String) -> (r: ChatRequest)
    ensures
        r.model@ == model@,
        r.messages@.len() == 1,
        r.messages@[0].role is User,
        r.messages@[0].content == prompt,
        r.tool_choice is Required,
        r.tools@.len() == 1,
        schema::spec_command_tool(r.tools@[0]),
{
    let mut messages: Vec<Message> = Vec::new();
    messages.push(Message { role: Role::User, content: prompt });
    let mut tools: Vec<ToolDefinition> = Vec::new();
    tools.push(schema::make_tool_definition());
    ChatRequest { model: model.clone(), messages, tool_choice: ToolChoice::Required, tools }
}

} // verus!
