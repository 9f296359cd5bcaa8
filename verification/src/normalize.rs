//! Bringing what a tool's handler gave into one shape.

use vstd::prelude::*;
use crate::context::{ContextVariables, ContextView};
use crate::decode::{agent_of_json, tool_result_of_json};
use crate::json::{json_text, Json, JsonView};
use crate::types::{optional_agent, Agent, AgentView, ToolResult, ToolResultView};

verus! {

/// The three shapes that a handler's answer can have.
#[derive(Debug, Clone, Copy, PartialEq, Eq, Structural)]
pub enum ResultShape {
    /// A JSON object with a `value` field: a tool result spelled out.
    Structured,
    /// A JSON object with an `assistant` field and no `value`: a handoff.
    Handoff,
    /// Anything else: a plain value.
    Plain,
}

/// The shape of a handler's answer. `value` is looked for first, then
/// `assistant`.
pub open spec fn shape_of(raw: JsonView) -> ResultShape {
    if raw.has("value"@) {
        ResultShape::Structured
    } else if raw.has("assistant"@) {
        ResultShape::Handoff
    } else {
        ResultShape::Plain
    }
}

/// The text of a plain answer: a JSON string as it is, any other value as
/// JSON text.
pub open spec fn plain_text(raw: JsonView) -> Seq<char> {
    match raw {
        JsonView::Text(s) => s,
        _ => json_text(raw),
    }
}

/// The agent that a handoff names: the one that the answer itself spells
/// out, or else the one that its `assistant` field spells out.
pub open spec fn handoff_agent(raw: JsonView) -> Option<AgentView> {
    match agent_of_json(raw) {
        Some(agent) => Some(agent),
        None => match raw.get("assistant"@) {
            Some(inner) => agent_of_json(inner),
            None => None,
        },
    }
}

/// What is left of a structured answer that cannot be read in full: the
/// `value` if it is a string, else the empty text, and nothing more.
pub open spec fn degraded(raw: JsonView) -> ToolResultView {
    ToolResultView {
        value: match raw.get("value"@) {
            Some(JsonView::Text(s)) => s,
            _ => Seq::empty(),
        },
        agent: None,
        context_variables: ContextView::empty(),
    }
}

/// The tool result that a handler's answer stands for.
pub open spec fn normalized(raw: JsonView) -> ToolResultView {
    match shape_of(raw) {
        ResultShape::Structured => match tool_result_of_json(raw) {
            Some(result) => result,
            None => degraded(raw),
        },
        ResultShape::Handoff => ToolResultView {
            value: json_text(raw),
            agent: handoff_agent(raw),
            context_variables: ContextView::empty(),
        },
        ResultShape::Plain => ToolResultView {
            value: plain_text(raw),
            agent: None,
            context_variables: ContextView::empty(),
        },
    }
}

/// Tells the shape of a handler's answer.
pub fn classify(raw: &Json) -> (r: ResultShape)
    ensures
        r == shape_of(raw@),
{
    if raw.has("value") {
        ResultShape::Structured
    } else if raw.has("assistant") {
        ResultShape::Handoff
    } else {
        ResultShape::Plain
    }
}

/// Reads the agent that a handoff names.
pub fn read_handoff(raw: &Json) -> (r: Option<Agent>)
    ensures
        optional_agent(r) == handoff_agent(raw@),
{
    match Agent::from_json(raw) {
        Some(agent) => Some(agent),
        None => match raw.get("assistant") {
            Some(inner) => Agent::from_json(inner),
            None => None,
        },
    }
}

/// Brings a handler's answer into the shape of a tool result. No answer is
/// refused: what cannot be read in full is kept as text.
pub fn normalize(raw: Json) -> (r: ToolResult)
    ensures
        r@ == normalized(raw@),
{
    match classify(&raw) {
        ResultShape::Structured => match ToolResult::from_json(&raw) {
            Some(result) => result,
            None => {
                let value = match raw.get("value") {
                    Some(Json::Text(s)) => s.clone(),
                    _ => String::new(),
                };
                ToolResult { value, agent: None, context_variables: ContextVariables::new() }
            },
        },
        ResultShape::Handoff => ToolResult {
            value: raw.to_text(),
            agent: read_handoff(&raw),
            context_variables: ContextVariables::new(),
        },
        ResultShape::Plain => {
            let value = match &raw {
                Json::Text(s) => s.clone(),
                _ => raw.to_text(),
            };
            ToolResult { value, agent: None, context_variables: ContextVariables::new() }
        },
    }
}

} // verus!
