//! Carrying out the tool calls of one turn.

use vstd::prelude::*;
use vstd::string::*;
use crate::assoc::{lookup, with_entry};
use crate::context::{context_json, merged, ContextVariables, ContextView};
use crate::json::{json_parse, set_field, Json, JsonView};
use crate::normalize::normalized;
use crate::registry::{ToolHandler, ToolRegistry};
use crate::types::{
    messages_view, Message, MessageView, Response, ResponseView, ToolCall, ToolCallView,
    ToolResult, ToolResultView,
};

verus! {

/// Why a run ended without a response.
#[derive(Debug)]
pub enum SwarmError {
    /// Streaming was asked for, which this library does not do.
    StreamingUnsupported,
    /// The arguments of a call of a registered tool were no JSON object.
    MalformedArguments,
    /// The model could not be asked; the text says why.
    CompletionFailed(String),
}

impl SwarmError {
    /// The error in words.
    pub open spec fn text(self) -> Seq<char> {
        match self {
            SwarmError::StreamingUnsupported => "streaming is not supported"@,
            SwarmError::MalformedArguments => "the arguments of a tool call are no JSON object"@,
            SwarmError::CompletionFailed(reason) => "the completion request failed: "@ + reason@,
        }
    }

    /// The error in words.
    pub fn message(&self) -> (r: String)
        ensures
            r@ == self.text(),
    {
        match self {
            SwarmError::StreamingUnsupported => "streaming is not supported".to_owned(),
            SwarmError::MalformedArguments => {
                "the arguments of a tool call are no JSON object".to_owned()
            },
            SwarmError::CompletionFailed(reason) => {
                let mut text = "the completion request failed: ".to_owned();
                text.append(reason.as_str());
                text
            },
        }
    }
}

/// The arguments that a handler gets: the JSON object that the call's
/// argument text spells out, with the shared variables put under
/// `context_variables`. There are none where the text is no JSON object.
pub open spec fn prepared_arguments(arguments: Seq<char>, context: ContextView) -> Option<
    JsonView,
> {
    match json_parse(arguments) {
        Some(JsonView::Object(fields)) => Some(
            JsonView::Object(with_entry(fields, "context_variables"@, context_json(context))),
        ),
        _ => None,
    }
}

/// The text that answers a call of a tool that is not registered.
pub open spec fn not_found_text(name: Seq<char>) -> Seq<char> {
    "error: tool "@ + name + " not found."@
}

/// The response of a turn before any call: no messages, no agent, no
/// variables.
pub open spec fn no_response() -> ResponseView {
    ResponseView { messages: Seq::empty(), agent: None, context_variables: ContextView::empty() }
}

/// `partial` after the result of the call `call_id` is taken in: one more
/// tool message, the result's variables written over those gathered so far,
/// and the result's agent in place of the one proposed so far, if it has one.
pub open spec fn recorded(
    partial: ResponseView,
    call_id: Seq<char>,
    result: ToolResultView,
) -> ResponseView {
    ResponseView {
        messages: partial.messages.push(
            MessageView::Tool { content: result.value, tool_call_id: call_id },
        ),
        agent: match result.agent {
            Some(agent) => Some(agent),
            None => partial.agent,
        },
        context_variables: merged(partial.context_variables, result.context_variables),
    }
}

/// `partial` after a call of a tool that is not registered: one more tool
/// message, which says so, and nothing else changed.
pub open spec fn recorded_missing(partial: ResponseView, call: ToolCallView) -> ResponseView {
    ResponseView {
        messages: partial.messages.push(
            MessageView::Tool { content: not_found_text(call.name), tool_call_id: call.id },
        ),
        agent: partial.agent,
        context_variables: partial.context_variables,
    }
}

/// The response of a turn whose calls are `calls`, where the handler of the
/// call at place `i`, if its tool is registered, answered `answers[i]`.
pub open spec fn dispatched<H>(
    registry: ToolRegistry<H>,
    calls: Seq<ToolCallView>,
    answers: Seq<JsonView>,
) -> ResponseView
    decreases calls.len(),
{
    if calls.len() == 0 || answers.len() != calls.len() {
        no_response()
    } else {
        let before = dispatched(registry, calls.drop_last(), answers.drop_last());
        if registry.has(calls.last().name) {
            recorded(before, calls.last().id, normalized(answers.last()))
        } else {
            recorded_missing(before, calls.last())
        }
    }
}

/// The message that answers one call: the text of the handler's answer where
/// the tool is registered, and else the text that says that it is not.
pub open spec fn answer_to<H>(
    registry: ToolRegistry<H>,
    call: ToolCallView,
    answer: JsonView,
) -> MessageView {
    MessageView::Tool {
        content: if registry.has(call.name) {
            normalized(answer).value
        } else {
            not_found_text(call.name)
        },
        tool_call_id: call.id,
    }
}

/// A turn gives one tool message for each call, in the order of the calls,
/// each with the identifier of its call.
pub proof fn lemma_one_message_per_call<H>(
    registry: ToolRegistry<H>,
    calls: Seq<ToolCallView>,
    answers: Seq<JsonView>,
)
    requires
        answers.len() == calls.len(),
    ensures
        dispatched(registry, calls, answers).messages.len() == calls.len(),
        forall|i: int|
            0 <= i < calls.len() ==> (#[trigger] dispatched(registry, calls, answers).messages[i])
                == answer_to(registry, calls[i], answers[i]),
    decreases calls.len(),
{
    if calls.len() > 0 {
        lemma_one_message_per_call(registry, calls.drop_last(), answers.drop_last());
    }
}

/// Whether a call stops the turn: its tool is registered and its arguments
/// are no JSON object.
pub open spec fn is_malformed<H>(registry: ToolRegistry<H>, call: ToolCallView) -> bool {
    registry.has(call.name) && !(json_parse(call.arguments) matches Some(JsonView::Object(_)))
}

/// Whether some call among `calls` stops the turn.
pub open spec fn some_malformed<H>(registry: ToolRegistry<H>, calls: Seq<ToolCallView>) -> bool {
    exists|i: int| 0 <= i < calls.len() && is_malformed(registry, #[trigger] calls[i])
}

/// Whether `answer` is what the handler of `call` may have given: where the
/// tool is registered and the arguments can be prepared, the handler found
/// under the call's name may answer the prepared arguments with it. Of a
/// call that reaches no handler nothing is asked.
pub open spec fn is_answer_to<H: ToolHandler>(
    registry: ToolRegistry<H>,
    call: ToolCallView,
    context: ContextView,
    answer: JsonView,
) -> bool {
    match (lookup(registry.functions(), call.name), prepared_arguments(call.arguments, context)) {
        (Some(function), Some(arguments)) => function.may_answer(arguments, answer),
        _ => true,
    }
}

/// Whether `answers` holds, for each call, what its handler may have given
/// when called with the call's arguments and the shared variables `context`.
pub open spec fn are_answers_to<H: ToolHandler>(
    registry: ToolRegistry<H>,
    calls: Seq<ToolCallView>,
    context: ContextView,
    answers: Seq<JsonView>,
) -> bool {
    &&& answers.len() == calls.len()
    &&& forall|i: int|
        0 <= i < calls.len() ==> is_answer_to(registry, #[trigger] calls[i], context, answers[i])
}

/// Whether `response` is what the turn gives for answers that the handlers
/// may have given.
pub open spec fn is_dispatch_of<H: ToolHandler>(
    registry: ToolRegistry<H>,
    calls: Seq<ToolCallView>,
    context: ContextView,
    response: ResponseView,
) -> bool {
    exists|answers: Seq<JsonView>|
        are_answers_to(registry, calls, context, answers) && response == #[trigger] dispatched(
            registry,
            calls,
            answers,
        )
}

/// Makes the arguments for a handler out of a call's argument text.
pub fn prepare_arguments(arguments: &str, context: &ContextVariables) -> (r: Result<
    Json,
    SwarmError,
>)
    ensures
        match r {
            Ok(json) => prepared_arguments(arguments@, context@) == Some(json@),
            Err(e) => prepared_arguments(arguments@, context@) is None && e is MalformedArguments,
        },
{
    match Json::parse(arguments) {
        Ok(Json::Object(mut fields)) => {
            set_field(&mut fields, "context_variables", context.to_json());
            Ok(Json::Object(fields))
        },
        _ => Err(SwarmError::MalformedArguments),
    }
}

/// The message that answers a call of a tool that is not registered.
pub fn not_found_message(call: &ToolCall) -> (r: Message)
    ensures
        r@ == (MessageView::Tool { content: not_found_text(call@.name), tool_call_id: call@.id }),
{
    let mut content = "error: tool ".to_owned();
    content.append(call.name.as_str());
    content.append(" not found.");
    Message::Tool { content, tool_call_id: call.id.clone() }
}

/// Takes the result of the call `call_id` into `partial`.
pub fn record_result(partial: &mut Response, call_id: &str, result: ToolResult)
    ensures
        final(partial)@ == recorded(old(partial)@, call_id@, result@),
{
    partial.messages.push(
        Message::Tool { content: result.value, tool_call_id: call_id.to_owned() },
    );
    partial.context_variables.extend(&result.context_variables);
    if let Some(agent) = result.agent {
        partial.agent = Some(agent);
    }
    assert(messages_view(partial.messages) =~= recorded(
        old(partial)@,
        call_id@,
        result@,
    ).messages);
}

} // verus!
