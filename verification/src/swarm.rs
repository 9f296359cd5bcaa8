//! The swarm: a registry of tools and the turn-taking around it.

use vstd::prelude::*;
use crate::assoc::{lookup, with_entry};
use crate::context::ContextVariables;
use crate::dispatch::{
    are_answers_to, dispatched, is_answer_to, is_dispatch_of, is_malformed, no_response,
    not_found_message, prepare_arguments, record_result, recorded_missing, some_malformed,
    SwarmError,
};
use crate::json::{Json, JsonView};
use crate::normalize::{normalize, normalized};
use crate::registry::{ToolHandler, ToolRegistry, ToolsView};
use crate::types::{calls_view, Response, ToolCall, ToolResult, ToolView};

verus! {

/// A set of tools together with the rules by which a conversation with a
/// model takes its turns.
pub struct Swarm<H> {
    pub registry: ToolRegistry<H>,
}

impl<H: ToolHandler> Swarm<H> {
    /// A swarm without tools.
    pub fn new() -> (r: Swarm<H>)
        ensures
            r.registry.tools() == ToolsView::empty(),
            r.registry.functions() == Seq::<(Seq<char>, H)>::empty(),
            forall|name: Seq<char>| !#[trigger] r.registry.has(name),
    {
        Swarm { registry: ToolRegistry::new() }
    }

    /// Registers `function` under `name`, advertised with `description` and
    /// the schema `parameters`. What the name held before is replaced.
    pub fn register_tool(&mut self, name: &str, description: &str, parameters: Json, function: H)
        ensures
            final(self).registry.tools() == with_entry(
                old(self).registry.tools(),
                name@,
                ToolView { name: name@, description: description@, parameters: parameters@ },
            ),
            final(self).registry.functions() == with_entry(
                old(self).registry.functions(),
                name@,
                function,
            ),
            forall|other: Seq<char>| #[trigger]
                lookup(final(self).registry.functions(), other) == if other == name@ {
                    Some(function)
                } else {
                    lookup(old(self).registry.functions(), other)
                },
            forall|other: Seq<char>| #[trigger]
                lookup(final(self).registry.tools(), other) == if other == name@ {
                    Some(
                        ToolView {
                            name: name@,
                            description: description@,
                            parameters: parameters@,
                        },
                    )
                } else {
                    lookup(old(self).registry.tools(), other)
                },
    {
        self.registry.register_tool(name, description, parameters, function);
    }

    /// Brings what a handler gave into the shape of a tool result.
    pub fn handle_function_result(&self, raw_result: Json) -> (r: ToolResult)
        ensures
            r@ == normalized(raw_result@),
    {
        normalize(raw_result)
    }

    /// Carries out the tool calls of one turn, in order. Each call of a
    /// registered tool hands its handler the call's arguments together with
    /// `context_variables` and takes in what the handler gives; each call of a
    /// tool that is not registered is answered with a message that says so.
    ///
    /// The turn fails if and only if a registered tool is called with
    /// arguments that are no JSON object. Else the response is the one that
    /// `dispatched` gives for the answers that the handlers gave.
    pub fn handle_tool_calls(
        &self,
        tool_calls: &Vec<ToolCall>,
        context_variables: &ContextVariables,
    ) -> (r: Result<Response, SwarmError>)
        ensures
            match r {
                Ok(response) => {
                    &&& !some_malformed(self.registry, calls_view(*tool_calls))
                    &&& is_dispatch_of(
                        self.registry,
                        calls_view(*tool_calls),
                        context_variables@,
                        response@,
                    )
                },
                Err(e) => {
                    &&& e is MalformedArguments
                    &&& some_malformed(self.registry, calls_view(*tool_calls))
                },
            },
    {
        let ghost calls = calls_view(*tool_calls);
        let ghost mut answers: Seq<JsonView> = Seq::empty();
        let mut partial = Response {
            messages: Vec::new(),
            agent: None,
            context_variables: ContextVariables::new(),
        };
        assert(partial@.messages =~= no_response().messages);
        let mut i: usize = 0;
        while i < tool_calls.len()
            invariant
                i <= tool_calls.len(),
                calls == calls_view(*tool_calls),
                answers.len() == i,
                partial@ == dispatched(self.registry, calls.take(i as int), answers),
                forall|k: int|
                    0 <= k < i ==> is_answer_to(
                        self.registry,
                        #[trigger] calls[k],
                        context_variables@,
                        answers[k],
                    ),
                forall|k: int| 0 <= k < i ==> !is_malformed(self.registry, #[trigger] calls[k]),
            decreases tool_calls.len() - i,
        {
            let call = &tool_calls[i];
            assert(calls[i as int] == call@);
            assert(calls.take(i + 1).drop_last() =~= calls.take(i as int));
            assert(calls.take(i + 1).last() == call@);
            match self.registry.get_function(call.name.as_str()) {
                Some(function) => {
                    let arguments = match prepare_arguments(
                        call.arguments.as_str(),
                        context_variables,
                    ) {
                        Ok(arguments) => arguments,
                        Err(e) => {
                            assert(is_malformed(self.registry, calls[i as int]));
                            return Err(e);
                        },
                    };
                    let raw = function.invoke(arguments);
                    proof {
                        assert(answers.push(raw@).drop_last() =~= answers);
                        answers = answers.push(raw@);
                    }
                    record_result(&mut partial, call.id.as_str(), normalize(raw));
                },
                None => {
                    proof {
                        assert(answers.push(JsonView::Null).drop_last() =~= answers);
                        answers = answers.push(JsonView::Null);
                    }
                    let ghost before = partial@;
                    partial.messages.push(not_found_message(call));
                    assert(partial@.messages =~= recorded_missing(before, call@).messages);
                },
            }
            i += 1;
        }
        assert(calls.take(i as int) =~= calls);
        assert(partial@ == dispatched(self.registry, calls, answers));
        assert(are_answers_to(self.registry, calls, context_variables@, answers));
        Ok(partial)
    }
}

} // verus!
