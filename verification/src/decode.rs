//! Reading tools, agents and tool results out of JSON.
//!
//! A value is read from a JSON object by the names of its fields, or from a
//! JSON array that holds all its fields in their order. In an object, fields
//! that the value does not have are passed over. A field that the value needs
//! and that is missing, or that holds the wrong kind of JSON, makes the
//! reading fail, and so does an array of another length.

use vstd::prelude::*;
use crate::context::{context_of_json, ContextVariables};
use crate::json::{lemma_items_view, Json, JsonView};
use crate::types::{
    optional_agent, optional_text, tools_view, Agent, AgentView, Tool, ToolResult, ToolResultView,
    ToolView,
};

verus! {

/// The string under `key`: there where the field holds a JSON string.
pub open spec fn required_text(json: JsonView, key: Seq<char>, place: int, count: int) -> Option<
    Seq<char>,
> {
    match json.field(key, place, count) {
        Some(JsonView::Text(s)) => Some(s),
        _ => None,
    }
}

/// The boolean under `key`: there where the field holds `true` or `false`.
pub open spec fn required_bool(json: JsonView, key: Seq<char>, place: int, count: int) -> Option<
    bool,
> {
    match json.field(key, place, count) {
        Some(JsonView::Bool(b)) => Some(b),
        _ => None,
    }
}

/// The string under `key` that may be left out: no string where the field is
/// missing or `null`, the string where it holds one, and a failure for any
/// other JSON.
pub open spec fn nullable_text(json: JsonView, key: Seq<char>, place: int, count: int) -> Option<
    Option<Seq<char>>,
> {
    match json.field(key, place, count) {
        None => Some(None),
        Some(JsonView::Null) => Some(None),
        Some(JsonView::Text(s)) => Some(Some(s)),
        _ => None,
    }
}

/// The tool that a JSON value spells out with `name`, `description` and
/// `parameters`, as an object or as an array of the three.
pub open spec fn tool_of_json(json: JsonView) -> Option<ToolView> {
    match (
        required_text(json, "name"@, 0, 3),
        required_text(json, "description"@, 1, 3),
        json.field("parameters"@, 2, 3),
    ) {
        (Some(name), Some(description), Some(parameters)) => Some(
            ToolView { name, description, parameters },
        ),
        _ => None,
    }
}

/// The tools that a JSON array spells out, if every item is a tool.
pub open spec fn tools_of_json(json: JsonView) -> Option<Seq<ToolView>> {
    match json {
        JsonView::Array(items) => if forall|i: int|
            0 <= i < items.len() ==> tool_of_json(#[trigger] items[i]) is Some {
            Some(items.map_values(|item: JsonView| tool_of_json(item).unwrap()))
        } else {
            None
        },
        _ => None,
    }
}

/// The tools under the field `tools`.
pub open spec fn required_tools(json: JsonView) -> Option<Seq<ToolView>> {
    match json.field("tools"@, 3, 6) {
        Some(tools) => tools_of_json(tools),
        None => None,
    }
}

/// The agent that a JSON value spells out: as an object with `name`,
/// `model`, `instructions`, `tools`, `parallel_tool_calls` and, if it likes,
/// `tool_choice`; or as an array of `name`, `model`, `instructions`, `tools`,
/// `tool_choice` and `parallel_tool_calls`.
pub open spec fn agent_of_json(json: JsonView) -> Option<AgentView> {
    match (
        required_text(json, "name"@, 0, 6),
        required_text(json, "model"@, 1, 6),
        required_text(json, "instructions"@, 2, 6),
        required_tools(json),
        nullable_text(json, "tool_choice"@, 4, 6),
        required_bool(json, "parallel_tool_calls"@, 5, 6),
    ) {
        (
            Some(name),
            Some(model),
            Some(instructions),
            Some(tools),
            Some(tool_choice),
            Some(parallel_tool_calls),
        ) => Some(
            AgentView { name, model, instructions, tools, tool_choice, parallel_tool_calls },
        ),
        _ => None,
    }
}

/// The agent under `agent` that may be left out: none where the field is
/// missing or `null`, the agent where it spells one out, and a failure for
/// any other JSON.
pub open spec fn nullable_agent(json: JsonView) -> Option<Option<AgentView>> {
    match json.field("agent"@, 1, 3) {
        None => Some(None),
        Some(JsonView::Null) => Some(None),
        Some(agent) => match agent_of_json(agent) {
            Some(a) => Some(Some(a)),
            None => None,
        },
    }
}

/// The variables under the field `context_variables`.
pub open spec fn required_context(json: JsonView) -> Option<crate::context::ContextView> {
    match json.field("context_variables"@, 2, 3) {
        Some(variables) => context_of_json(variables),
        None => None,
    }
}

/// The tool result that a JSON value spells out: as an object with `value`,
/// `context_variables` and, if it likes, `agent`; or as an array of `value`,
/// `agent` and `context_variables`.
pub open spec fn tool_result_of_json(json: JsonView) -> Option<ToolResultView> {
    match (required_text(json, "value"@, 0, 3), nullable_agent(json), required_context(json)) {
        (Some(value), Some(agent), Some(context_variables)) => Some(
            ToolResultView { value, agent, context_variables },
        ),
        _ => None,
    }
}

/// Reads the string in the field `key`, the one at place `place` of `count`.
pub fn text_field(json: &Json, key: &str, place: usize, count: usize) -> (r: Option<String>)
    ensures
        optional_text(r) == required_text(json@, key@, place as int, count as int),
{
    match json.field(key, place, count) {
        Some(Json::Text(s)) => Some(s.clone()),
        _ => None,
    }
}

/// Reads the boolean in the field `key`, the one at place `place` of `count`.
pub fn bool_field(json: &Json, key: &str, place: usize, count: usize) -> (r: Option<bool>)
    ensures
        r == required_bool(json@, key@, place as int, count as int),
{
    match json.field(key, place, count) {
        Some(Json::Bool(b)) => Some(*b),
        _ => None,
    }
}

/// Reads the string in the field `key`, the one at place `place` of `count`,
/// that may be left out.
pub fn nullable_text_field(json: &Json, key: &str, place: usize, count: usize) -> (r: Option<
    Option<String>,
>)
    ensures
        match r {
            Some(text) => nullable_text(json@, key@, place as int, count as int) == Some(
                optional_text(text),
            ),
            None => nullable_text(json@, key@, place as int, count as int) is None,
        },
{
    match json.field(key, place, count) {
        None => Some(None),
        Some(Json::Null) => Some(None),
        Some(Json::Text(s)) => Some(Some(s.clone())),
        _ => None,
    }
}

impl Tool {
    /// Reads a tool from the JSON that spells it out.
    pub fn from_json(json: &Json) -> (r: Option<Tool>)
        ensures
            match r {
                Some(tool) => tool_of_json(json@) == Some(tool@),
                None => tool_of_json(json@) is None,
            },
    {
        let name = text_field(json, "name", 0, 3);
        let description = text_field(json, "description", 1, 3);
        match (name, description, json.field("parameters", 2, 3)) {
            (Some(name), Some(description), Some(parameters)) => Some(
                Tool { name, description, parameters: parameters.clone() },
            ),
            _ => None,
        }
    }
}

/// Reads the tools that a JSON array spells out.
pub fn tools_from_json(json: &Json) -> (r: Option<Vec<Tool>>)
    ensures
        match r {
            Some(tools) => tools_of_json(json@) == Some(tools_view(tools)),
            None => tools_of_json(json@) is None,
        },
{
    match json {
        Json::Array(items) => {
            let ghost all = json@->Array_0;
            proof {
                lemma_items_view(*items);
            }
            let mut tools: Vec<Tool> = Vec::new();
            let mut i: usize = 0;
            while i < items.len()
                invariant
                    i <= items.len(),
                    json@ == JsonView::Array(all),
                    all.len() == items.len(),
                    forall|k: int| 0 <= k < items.len() ==> (#[trigger] all[k]) == items[k]@,
                    tools.len() == i,
                    forall|k: int|
                        0 <= k < i ==> tool_of_json(#[trigger] all[k]) == Some(tools[k]@),
                decreases items.len() - i,
            {
                match Tool::from_json(&items[i]) {
                    Some(tool) => {
                        tools.push(tool);
                    },
                    None => {
                        assert(tool_of_json(all[i as int]) is None);
                        return None;
                    },
                }
                i += 1;
            }
            proof {
                assert forall|k: int| 0 <= k < all.len() implies tool_of_json(
                    #[trigger] all[k],
                ) is Some by {
                    assert(tool_of_json(all[k]) == Some(tools[k]@));
                }
                assert(tools_view(tools) =~= all.map_values(
                    |item: JsonView| tool_of_json(item).unwrap(),
                ));
            }
            Some(tools)
        },
        _ => None,
    }
}

impl Agent {
    /// Reads an agent from the JSON that spells it out.
    pub fn from_json(json: &Json) -> (r: Option<Agent>)
        ensures
            optional_agent(r) == agent_of_json(json@),
    {
        let name = text_field(json, "name", 0, 6);
        let model = text_field(json, "model", 1, 6);
        let instructions = text_field(json, "instructions", 2, 6);
        let tools = match json.field("tools", 3, 6) {
            Some(list) => tools_from_json(list),
            None => None,
        };
        let tool_choice = nullable_text_field(json, "tool_choice", 4, 6);
        let parallel_tool_calls = bool_field(json, "parallel_tool_calls", 5, 6);
        match (name, model, instructions, tools, tool_choice, parallel_tool_calls) {
            (
                Some(name),
                Some(model),
                Some(instructions),
                Some(tools),
                Some(tool_choice),
                Some(parallel_tool_calls),
            ) => Some(Agent { name, model, instructions, tools, tool_choice, parallel_tool_calls }),
            _ => None,
        }
    }
}

/// Reads the agent under `agent` that may be left out.
pub fn nullable_agent_field(json: &Json) -> (r: Option<Option<Agent>>)
    ensures
        match r {
            Some(agent) => nullable_agent(json@) == Some(optional_agent(agent)),
            None => nullable_agent(json@) is None,
        },
{
    match json.field("agent", 1, 3) {
        None => Some(None),
        Some(Json::Null) => Some(None),
        Some(agent) => match Agent::from_json(agent) {
            Some(a) => Some(Some(a)),
            None => None,
        },
    }
}

impl ToolResult {
    /// Reads a tool result from the JSON that spells it out.
    pub fn from_json(json: &Json) -> (r: Option<ToolResult>)
        ensures
            match r {
                Some(result) => tool_result_of_json(json@) == Some(result@),
                None => tool_result_of_json(json@) is None,
            },
    {
        let value = text_field(json, "value", 0, 3);
        let agent = nullable_agent_field(json);
        let context_variables = match json.field("context_variables", 2, 3) {
            Some(variables) => ContextVariables::from_json(variables),
            None => None,
        };
        match (value, agent, context_variables) {
            (Some(value), Some(agent), Some(context_variables)) => Some(
                ToolResult { value, agent, context_variables },
            ),
            _ => None,
        }
    }
}

} // verus!
