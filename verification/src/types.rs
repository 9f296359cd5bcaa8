//! The values that pass between a caller, the model and the tools.

use vstd::prelude::*;
use crate::context::{ContextVariables, ContextView};
use crate::json::{Json, JsonView};

verus! {

/// The text of an optional string.
pub open spec fn optional_text(text: Option<String>) -> Option<Seq<char>> {
    match text {
        Some(s) => Some(s@),
        None => None,
    }
}

/// Copies an optional string.
pub fn clone_optional_text(text: &Option<String>) -> (r: Option<String>)
    ensures
        optional_text(r) == optional_text(*text),
{
    match text {
        Some(s) => Some(s.clone()),
        None => None,
    }
}

/// A tool as it is advertised to the model: its name, what it is for, and a
/// JSON schema of its parameters.
#[derive(Debug)]
pub struct Tool {
    pub name: String,
    pub description: String,
    pub parameters: Json,
}

/// The mathematical value of a [`Tool`].
pub ghost struct ToolView {
    pub name: Seq<char>,
    pub description: Seq<char>,
    pub parameters: JsonView,
}

impl View for Tool {
    type V = ToolView;

    open spec fn view(&self) -> ToolView {
        ToolView { name: self.name@, description: self.description@, parameters: self.parameters@ }
    }
}

impl Tool {
    /// A tool with the given name, description and parameter schema.
    pub fn new(name: &str, description: &str, parameters: Json) -> (r: Tool)
        ensures
            r@ == (ToolView { name: name@, description: description@, parameters: parameters@ }),
    {
        Tool { name: name.to_owned(), description: description.to_owned(), parameters }
    }
}

impl Clone for Tool {
    fn clone(&self) -> (r: Tool)
        ensures
            r@ == self@,
    {
        Tool {
            name: self.name.clone(),
            description: self.description.clone(),
            parameters: self.parameters.clone(),
        }
    }
}

impl Default for Tool {
    /// A tool without a name or a description, whose schema is `null`.
    fn default() -> (r: Tool)
        ensures
            r@ == (ToolView {
                name: Seq::empty(),
                description: Seq::empty(),
                parameters: JsonView::Null,
            }),
    {
        Tool { name: String::new(), description: String::new(), parameters: Json::Null }
    }
}

/// The views of a list of tools, in order.
pub open spec fn tools_view(tools: Vec<Tool>) -> Seq<ToolView> {
    tools@.map_values(|tool: Tool| tool@)
}

/// Copies a list of tools.
pub fn clone_tools(tools: &Vec<Tool>) -> (r: Vec<Tool>)
    ensures
        tools_view(r) == tools_view(*tools),
{
    let mut out: Vec<Tool> = Vec::new();
    let mut i: usize = 0;
    while i < tools.len()
        invariant
            i <= tools.len(),
            out.len() == i,
            forall|k: int| 0 <= k < i ==> out[k]@ == tools[k]@,
        decreases tools.len() - i,
    {
        out.push(tools[i].clone());
        i += 1;
    }
    assert(tools_view(out) =~= tools_view(*tools));
    out
}

/// The persona and the capabilities that drive the next request to the
/// model. An agent is never changed in place: a handoff puts another agent
/// in its place.
#[derive(Debug)]
pub struct Agent {
    pub name: String,
    pub model: String,
    pub instructions: String,
    pub tools: Vec<Tool>,
    pub tool_choice: Option<String>,
    pub parallel_tool_calls: bool,
}

/// The mathematical value of an [`Agent`].
pub ghost struct AgentView {
    pub name: Seq<char>,
    pub model: Seq<char>,
    pub instructions: Seq<char>,
    pub tools: Seq<ToolView>,
    pub tool_choice: Option<Seq<char>>,
    pub parallel_tool_calls: bool,
}

impl View for Agent {
    type V = AgentView;

    open spec fn view(&self) -> AgentView {
        AgentView {
            name: self.name@,
            model: self.model@,
            instructions: self.instructions@,
            tools: tools_view(self.tools),
            tool_choice: optional_text(self.tool_choice),
            parallel_tool_calls: self.parallel_tool_calls,
        }
    }
}

/// The view of an optional agent.
pub open spec fn optional_agent(agent: Option<Agent>) -> Option<AgentView> {
    match agent {
        Some(a) => Some(a@),
        None => None,
    }
}

impl Clone for Agent {
    fn clone(&self) -> (r: Agent)
        ensures
            r@ == self@,
    {
        Agent {
            name: self.name.clone(),
            model: self.model.clone(),
            instructions: self.instructions.clone(),
            tools: clone_tools(&self.tools),
            tool_choice: clone_optional_text(&self.tool_choice),
            parallel_tool_calls: self.parallel_tool_calls,
        }
    }
}

impl Default for Agent {
    /// The agent named "Agent" on the model "gpt-4", with the stock
    /// instructions, no tools, no tool choice, and parallel tool calls allowed.
    fn default() -> (r: Agent)
        ensures
            r@ == (AgentView {
                name: "Agent"@,
                model: "gpt-4"@,
                instructions: "You are a helpful agent."@,
                tools: Seq::empty(),
                tool_choice: None,
                parallel_tool_calls: true,
            }),
    {
        let r = Agent {
            name: "Agent".to_owned(),
            model: "gpt-4".to_owned(),
            instructions: "You are a helpful agent.".to_owned(),
            tools: Vec::new(),
            tool_choice: None,
            parallel_tool_calls: true,
        };
        assert(r@.tools =~= Seq::empty());
        r
    }
}

/// What one call of a tool gives: the text for the model, the agent to hand
/// over to if there is one, and the variables to merge.
#[derive(Debug)]
pub struct ToolResult {
    pub value: String,
    pub agent: Option<Agent>,
    pub context_variables: ContextVariables,
}

/// The mathematical value of a [`ToolResult`].
pub ghost struct ToolResultView {
    pub value: Seq<char>,
    pub agent: Option<AgentView>,
    pub context_variables: ContextView,
}

impl View for ToolResult {
    type V = ToolResultView;

    open spec fn view(&self) -> ToolResultView {
        ToolResultView {
            value: self.value@,
            agent: optional_agent(self.agent),
            context_variables: self.context_variables@,
        }
    }
}

/// A request of the model to call a tool: the identifier that the answer
/// must carry, the tool's name, and the arguments as JSON text.
#[derive(Debug)]
pub struct ToolCall {
    pub id: String,
    pub name: String,
    pub arguments: String,
}

/// The mathematical value of a [`ToolCall`].
pub ghost struct ToolCallView {
    pub id: Seq<char>,
    pub name: Seq<char>,
    pub arguments: Seq<char>,
}

impl View for ToolCall {
    type V = ToolCallView;

    open spec fn view(&self) -> ToolCallView {
        ToolCallView { id: self.id@, name: self.name@, arguments: self.arguments@ }
    }
}

impl Clone for ToolCall {
    fn clone(&self) -> (r: ToolCall)
        ensures
            r@ == self@,
    {
        ToolCall {
            id: self.id.clone(),
            name: self.name.clone(),
            arguments: self.arguments.clone(),
        }
    }
}

/// The views of a list of tool calls, in order.
pub open spec fn calls_view(calls: Vec<ToolCall>) -> Seq<ToolCallView> {
    calls@.map_values(|call: ToolCall| call@)
}

/// The views of an optional list of tool calls.
pub open spec fn optional_calls(calls: Option<Vec<ToolCall>>) -> Option<Seq<ToolCallView>> {
    match calls {
        Some(list) => Some(calls_view(list)),
        None => None,
    }
}

/// Copies a list of tool calls.
pub fn clone_calls(calls: &Vec<ToolCall>) -> (r: Vec<ToolCall>)
    ensures
        calls_view(r) == calls_view(*calls),
{
    let mut out: Vec<ToolCall> = Vec::new();
    let mut i: usize = 0;
    while i < calls.len()
        invariant
            i <= calls.len(),
            out.len() == i,
            forall|k: int| 0 <= k < i ==> out[k]@ == calls[k]@,
        decreases calls.len() - i,
    {
        out.push(calls[i].clone());
        i += 1;
    }
    assert(calls_view(out) =~= calls_view(*calls));
    out
}

/// One entry of a conversation.
#[derive(Debug)]
#[allow(inconsistent_fields)]
pub enum Message {
    /// What the user said.
    User { content: String },
    /// What the model answered: text, a refusal, or calls of tools.
    Assistant { content: Option<String>, refusal: Option<String>, tool_calls: Option<Vec<ToolCall>> },
    /// What a tool gave for the call with the identifier `tool_call_id`.
    Tool { content: String, tool_call_id: String },
}

/// The mathematical value of a [`Message`].
#[allow(inconsistent_fields)]
pub ghost enum MessageView {
    User { content: Seq<char> },
    Assistant {
        content: Option<Seq<char>>,
        refusal: Option<Seq<char>>,
        tool_calls: Option<Seq<ToolCallView>>,
    },
    Tool { content: Seq<char>, tool_call_id: Seq<char> },
}

impl View for Message {
    type V = MessageView;

    open spec fn view(&self) -> MessageView {
        match self {
            Message::User { content } => MessageView::User { content: content@ },
            Message::Assistant { content, refusal, tool_calls } => MessageView::Assistant {
                content: optional_text(*content),
                refusal: optional_text(*refusal),
                tool_calls: optional_calls(*tool_calls),
            },
            Message::Tool { content, tool_call_id } => MessageView::Tool {
                content: content@,
                tool_call_id: tool_call_id@,
            },
        }
    }
}

impl Clone for Message {
    fn clone(&self) -> (r: Message)
        ensures
            r@ == self@,
    {
        match self {
            Message::User { content } => Message::User { content: content.clone() },
            Message::Assistant { content, refusal, tool_calls } => Message::Assistant {
                content: clone_optional_text(content),
                refusal: clone_optional_text(refusal),
                tool_calls: match tool_calls {
                    Some(calls) => Some(clone_calls(calls)),
                    None => None,
                },
            },
            Message::Tool { content, tool_call_id } => Message::Tool {
                content: content.clone(),
                tool_call_id: tool_call_id.clone(),
            },
        }
    }
}

/// The views of a list of messages, in order.
pub open spec fn messages_view(messages: Vec<Message>) -> Seq<MessageView> {
    messages@.map_values(|message: Message| message@)
}

/// Copies the messages of `messages` from place `from` on.
pub fn clone_messages_from(messages: &Vec<Message>, from: usize) -> (r: Vec<Message>)
    requires
        from <= messages.len(),
    ensures
        messages_view(r) == messages_view(*messages).skip(from as int),
{
    let mut out: Vec<Message> = Vec::new();
    let mut i: usize = from;
    while i < messages.len()
        invariant
            from <= i <= messages.len(),
            out.len() == i - from,
            forall|k: int| 0 <= k < i - from ==> out[k]@ == messages[from + k]@,
        decreases messages.len() - i,
    {
        out.push(messages[i].clone());
        i += 1;
    }
    assert(messages_view(out) =~= messages_view(*messages).skip(from as int));
    out
}

/// What the model answered to one request.
#[derive(Debug)]
pub struct Completion {
    pub content: Option<String>,
    pub refusal: Option<String>,
    pub tool_calls: Option<Vec<ToolCall>>,
}

/// The mathematical value of a [`Completion`].
pub ghost struct CompletionView {
    pub content: Option<Seq<char>>,
    pub refusal: Option<Seq<char>>,
    pub tool_calls: Option<Seq<ToolCallView>>,
}

impl View for Completion {
    type V = CompletionView;

    open spec fn view(&self) -> CompletionView {
        CompletionView {
            content: optional_text(self.content),
            refusal: optional_text(self.refusal),
            tool_calls: optional_calls(self.tool_calls),
        }
    }
}

/// What a run, or the tool calls of one turn, gave: the messages that were
/// appended, the agent that is active at the end if one is known, and the
/// variables.
#[derive(Debug)]
pub struct Response {
    pub messages: Vec<Message>,
    pub agent: Option<Agent>,
    pub context_variables: ContextVariables,
}

/// The mathematical value of a [`Response`].
pub ghost struct ResponseView {
    pub messages: Seq<MessageView>,
    pub agent: Option<AgentView>,
    pub context_variables: ContextView,
}

impl View for Response {
    type V = ResponseView;

    open spec fn view(&self) -> ResponseView {
        ResponseView {
            messages: messages_view(self.messages),
            agent: optional_agent(self.agent),
            context_variables: self.context_variables@,
        }
    }
}

} // verus!
