//! What holds of the registry, of a turn and of a run, whatever the tools
//! answer.

use vstd::prelude::*;
use crate::assoc::{
    distinct_keys, key_index, lemma_key_index, lemma_with_entry_distinct, lemma_with_entry_lookup,
    lookup, with_entry,
};
use crate::context::{lemma_merged_lookup, merged, ContextView};
use crate::dispatch::{dispatched, is_malformed, lemma_one_message_per_call, not_found_text};
use crate::json::JsonView;
use crate::normalize::normalized;
use crate::registry::ToolRegistry;
use crate::run::{
    assistant_message, calls_to_carry_out, played, request_for, started, turn_step, RunView,
    StepView, TurnView,
};
use crate::types::{
    AgentView, CompletionView, MessageView, ResponseView, ToolCallView, ToolView,
};

verus! {

/// Registering a name twice leaves one entry under it, the second: the
/// second registration adds no entry, the name stands at one place only, and
/// both the tool and the handler found under it are those of the second.
pub proof fn lemma_last_registration_wins<H>(
    before: ToolRegistry<H>,
    between: ToolRegistry<H>,
    after: ToolRegistry<H>,
    name: Seq<char>,
    first_tool: ToolView,
    first_function: H,
    second_tool: ToolView,
    second_function: H,
)
    requires
        distinct_keys(before.tools()),
        distinct_keys(before.functions()),
        between.tools() == with_entry(before.tools(), name, first_tool),
        between.functions() == with_entry(before.functions(), name, first_function),
        after.tools() == with_entry(between.tools(), name, second_tool),
        after.functions() == with_entry(between.functions(), name, second_function),
    ensures
        lookup(after.tools(), name) == Some(second_tool),
        lookup(after.functions(), name) == Some(second_function),
        after.tools().len() == between.tools().len(),
        after.functions().len() == between.functions().len(),
        distinct_keys(after.tools()),
        distinct_keys(after.functions()),
        forall|i: int|
            0 <= i < after.functions().len() && (#[trigger] after.functions()[i]).0 == name ==> i
                == key_index(after.functions(), name),
        forall|i: int|
            0 <= i < after.tools().len() && (#[trigger] after.tools()[i]).0 == name ==> i
                == key_index(after.tools(), name),
{
    lemma_with_entry_lookup(before.tools(), name, first_tool, name);
    lemma_with_entry_lookup(before.functions(), name, first_function, name);
    lemma_with_entry_lookup(between.tools(), name, second_tool, name);
    lemma_with_entry_lookup(between.functions(), name, second_function, name);
    lemma_with_entry_distinct(before.tools(), name, first_tool);
    lemma_with_entry_distinct(before.functions(), name, first_function);
    lemma_with_entry_distinct(between.tools(), name, second_tool);
    lemma_with_entry_distinct(between.functions(), name, second_function);
    lemma_key_index(between.tools(), name);
    lemma_key_index(between.functions(), name);
    lemma_key_index(after.tools(), name);
    lemma_key_index(after.functions(), name);
}

/// A call of a tool that is not registered does not stop the turn, and is
/// answered by a tool message which says that the tool was not found.
pub proof fn lemma_unregistered_call_is_answered<H>(
    registry: ToolRegistry<H>,
    calls: Seq<ToolCallView>,
    answers: Seq<JsonView>,
    i: int,
)
    requires
        answers.len() == calls.len(),
        0 <= i < calls.len(),
        !registry.has(calls[i].name),
    ensures
        !is_malformed(registry, calls[i]),
        dispatched(registry, calls, answers).messages[i] == (MessageView::Tool {
            content: not_found_text(calls[i].name),
            tool_call_id: calls[i].id,
        }),
{
    lemma_one_message_per_call(registry, calls, answers);
}

/// Whether the answer to the call at place `i` sets the variable `key`.
pub open spec fn sets_variable<H>(
    registry: ToolRegistry<H>,
    calls: Seq<ToolCallView>,
    answers: Seq<JsonView>,
    i: int,
    key: Seq<char>,
) -> bool {
    registry.has(calls[i].name) && lookup(normalized(answers[i]).context_variables, key) is Some
}

/// Whether the answer to the call at place `i` proposes an agent.
pub open spec fn proposes_agent<H>(
    registry: ToolRegistry<H>,
    calls: Seq<ToolCallView>,
    answers: Seq<JsonView>,
    i: int,
) -> bool {
    registry.has(calls[i].name) && normalized(answers[i]).agent is Some
}

/// Among the calls of a turn that set a variable, the last one wins: the
/// turn's variables, and the shared variables after the turn, hold under the
/// key what the answer to that call gave.
pub proof fn lemma_last_write_wins<H>(
    registry: ToolRegistry<H>,
    calls: Seq<ToolCallView>,
    answers: Seq<JsonView>,
    shared: ContextView,
    key: Seq<char>,
    last: int,
)
    requires
        answers.len() == calls.len(),
        0 <= last < calls.len(),
        sets_variable(registry, calls, answers, last, key),
        forall|j: int| last < j < calls.len() ==> !sets_variable(registry, calls, answers, j, key),
    ensures
        lookup(dispatched(registry, calls, answers).context_variables, key) == lookup(
            normalized(answers[last]).context_variables,
            key,
        ),
        lookup(merged(shared, dispatched(registry, calls, answers).context_variables), key)
            == lookup(normalized(answers[last]).context_variables, key),
    decreases calls.len(),
{
    let before = dispatched(registry, calls.drop_last(), answers.drop_last());
    if last < calls.len() - 1 {
        assert(!sets_variable(registry, calls, answers, calls.len() - 1, key));
        assert forall|j: int| last < j < calls.len() - 1 implies !sets_variable(
            registry,
            calls.drop_last(),
            answers.drop_last(),
            j,
            key,
        ) by {
            assert(!sets_variable(registry, calls, answers, j, key));
        }
        lemma_last_write_wins(registry, calls.drop_last(), answers.drop_last(), shared, key, last);
    }
    if registry.has(calls.last().name) {
        lemma_merged_lookup(
            before.context_variables,
            normalized(answers.last()).context_variables,
            key,
        );
    }
    lemma_merged_lookup(shared, dispatched(registry, calls, answers).context_variables, key);
}

/// Where two calls of one turn set the same variable, it holds after the
/// turn what the second call gave.
pub proof fn lemma_second_write_wins<H>(
    registry: ToolRegistry<H>,
    calls: Seq<ToolCallView>,
    answers: Seq<JsonView>,
    shared: ContextView,
    key: Seq<char>,
)
    requires
        calls.len() == 2,
        answers.len() == 2,
        sets_variable(registry, calls, answers, 0, key),
        sets_variable(registry, calls, answers, 1, key),
    ensures
        lookup(merged(shared, dispatched(registry, calls, answers).context_variables), key)
            == lookup(normalized(answers[1]).context_variables, key),
{
    lemma_last_write_wins(registry, calls, answers, shared, key, 1);
}

/// Among the calls of a turn that propose an agent, the last one wins: the
/// turn proposes the agent of that call.
pub proof fn lemma_last_handoff_wins<H>(
    registry: ToolRegistry<H>,
    calls: Seq<ToolCallView>,
    answers: Seq<JsonView>,
    last: int,
)
    requires
        answers.len() == calls.len(),
        0 <= last < calls.len(),
        proposes_agent(registry, calls, answers, last),
        forall|j: int| last < j < calls.len() ==> !proposes_agent(registry, calls, answers, j),
    ensures
        dispatched(registry, calls, answers).agent == normalized(answers[last]).agent,
    decreases calls.len(),
{
    if last < calls.len() - 1 {
        assert(!proposes_agent(registry, calls, answers, calls.len() - 1));
        assert forall|j: int| last < j < calls.len() - 1 implies !proposes_agent(
            registry,
            calls.drop_last(),
            answers.drop_last(),
            j,
        ) by {
            assert(!proposes_agent(registry, calls, answers, j));
        }
        lemma_last_handoff_wins(registry, calls.drop_last(), answers.drop_last(), last);
    }
}

/// Where two calls of one turn each propose an agent, the agent of the
/// second leads the run after the turn.
pub proof fn lemma_second_handoff_wins<H>(
    registry: ToolRegistry<H>,
    run: RunView,
    completion: CompletionView,
    calls: Seq<ToolCallView>,
    answers: Seq<JsonView>,
)
    requires
        calls.len() == 2,
        answers.len() == 2,
        proposes_agent(registry, calls, answers, 0),
        proposes_agent(registry, calls, answers, 1),
    ensures
        run.after_turn(completion, dispatched(registry, calls, answers)).agent == normalized(
            answers[1],
        ).agent.unwrap(),
{
    lemma_last_handoff_wins(registry, calls, answers, 1);
}

/// A turn without a handoff leaves the agent in the lead, and no turn changes
/// the messages that were there before it.
pub proof fn lemma_turn_keeps_history(
    run: RunView,
    completion: CompletionView,
    partial: ResponseView,
)
    ensures
        partial.agent is None ==> run.after_turn(completion, partial).agent == run.agent,
        run.after_turn(completion, partial).history.take(run.history.len() as int) == run.history,
        run.after_turn(completion, partial).init_len == run.init_len,
        run.after_turn(completion, partial).max_turns == run.max_turns,
{
    assert(run.after_turn(completion, partial).history.take(run.history.len() as int)
        =~= run.history);
}

/// After a handoff, the request that asks for the next answer names the new
/// agent's model and instructions and offers the new agent's tools, and none
/// of the agent that led before.
pub proof fn lemma_handoff_leads(
    run: RunView,
    completion: CompletionView,
    partial: ResponseView,
)
    requires
        partial.agent is Some,
    ensures
        run.after_turn(completion, partial).agent == partial.agent.unwrap(),
        match run.after_turn(completion, partial).next_step() {
            StepView::Ask(waiting, request) => {
                &&& waiting.agent == partial.agent.unwrap()
                &&& request == request_for(partial.agent.unwrap(), waiting.history)
                &&& request.model == partial.agent.unwrap().model
                &&& request.instructions == partial.agent.unwrap().instructions
            },
            StepView::Done(response) => response.agent == partial.agent,
        },
{
}

/// A turn keeps to the limit. A run asks the model only while it has
/// appended fewer than `max_turns` messages, so the answer fits. The calls
/// that are carried out are at most as many as the limit then leaves room
/// for, and each gives one message. Where the answer uses up the limit, or
/// holds an empty list of calls, no call is carried out and the run is over.
pub proof fn lemma_turn_budget<H>(
    registry: ToolRegistry<H>,
    run: RunView,
    completion: CompletionView,
    answers: Seq<JsonView>,
)
    requires
        run.may_ask(),
    ensures
        run.heard(completion).appended() == run.appended() + 1,
        run.heard(completion).appended() <= run.max_turns,
        match calls_to_carry_out(run, completion) {
            Some(calls) => {
                let after = run.after_turn(completion, dispatched(registry, calls, answers));
                &&& 0 < calls.len() <= run.room_for_tools()
                &&& after.appended() <= run.max_turns
                &&& answers.len() == calls.len() ==> after.appended() == run.appended() + 1
                    + calls.len()
            },
            None => turn_step(registry, run, completion, answers) == StepView::Done(
                run.heard(completion).response(),
            ),
        },
        run.appended() + 1 == run.max_turns ==> calls_to_carry_out(run, completion) is None,
        completion.tool_calls == Some(Seq::<ToolCallView>::empty()) ==> calls_to_carry_out(
            run,
            completion,
        ) is None,
        turn_step(registry, run, completion, answers).within(run.max_turns),
{
    match calls_to_carry_out(run, completion) {
        Some(calls) => {
            if answers.len() == calls.len() {
                lemma_one_message_per_call(registry, calls, answers);
            }
        },
        None => {},
    }
}

/// However a run goes, no step of it passes the limit: a run that waits has
/// appended fewer than `max_turns` messages, and a response holds at most
/// `max_turns` messages.
pub proof fn lemma_run_keeps_to_limit<H>(
    registry: ToolRegistry<H>,
    agent: AgentView,
    messages: Seq<MessageView>,
    context_variables: Option<ContextView>,
    max_turns: Option<usize>,
    execute_tools: bool,
    turns: Seq<TurnView>,
)
    ensures
        played(
            registry,
            started(agent, messages, context_variables, max_turns, execute_tools).next_step(),
            turns,
        ).within(started(agent, messages, context_variables, max_turns, execute_tools).max_turns),
    decreases turns.len(),
{
    let first = started(agent, messages, context_variables, max_turns, execute_tools);
    if turns.len() == 0 {
        assert(first.history.skip(first.init_len as int) =~= Seq::<MessageView>::empty());
    } else {
        lemma_run_keeps_to_limit(
            registry,
            agent,
            messages,
            context_variables,
            max_turns,
            execute_tools,
            turns.drop_last(),
        );
        match played(registry, first.next_step(), turns.drop_last()) {
            StepView::Ask(run, _) => {
                lemma_turn_budget(registry, run, turns.last().completion, turns.last().answers);
            },
            StepView::Done(_) => {},
        }
    }
}

/// With `max_turns` at one, an answer ends the run with that answer as the
/// one appended message, whether it holds tool calls or not.
pub proof fn lemma_single_turn<H>(
    registry: ToolRegistry<H>,
    run: RunView,
    completion: CompletionView,
    answers: Seq<JsonView>,
)
    requires
        run.may_ask(),
        run.max_turns == 1,
    ensures
        run.appended() == 0,
        turn_step(registry, run, completion, answers) == StepView::Done(
            run.heard(completion).response(),
        ),
        run.heard(completion).response().messages == seq![assistant_message(completion)],
{
    assert(run.heard(completion).response().messages =~= seq![assistant_message(completion)]);
}

/// The variables that a step holds: those of the run that waits, or those of
/// the response.
pub open spec fn variables_of(step: StepView) -> ContextView {
    match step {
        StepView::Ask(run, _) => run.context_variables,
        StepView::Done(response) => response.context_variables,
    }
}

/// The variables that the tools of one turn set, the later call over the
/// earlier.
pub open spec fn turn_updates<H>(
    registry: ToolRegistry<H>,
    run: RunView,
    turn: TurnView,
) -> ContextView {
    match calls_to_carry_out(run, turn.completion) {
        Some(calls) => dispatched(registry, calls, turn.answers).context_variables,
        None => ContextView::empty(),
    }
}

/// What a variable holds after the turns `turns`: what the last turn that
/// set it gave, and where no turn set it, what it held at the start.
pub open spec fn last_written<H>(
    registry: ToolRegistry<H>,
    first: StepView,
    turns: Seq<TurnView>,
    key: Seq<char>,
) -> Option<Seq<char>>
    decreases turns.len(),
{
    if turns.len() == 0 {
        lookup(variables_of(first), key)
    } else {
        let earlier = last_written(registry, first, turns.drop_last(), key);
        match played(registry, first, turns.drop_last()) {
            StepView::Ask(run, _) => match lookup(turn_updates(registry, run, turns.last()), key) {
                Some(value) => Some(value),
                None => earlier,
            },
            StepView::Done(_) => earlier,
        }
    }
}

/// Over a whole run the last write wins: after any number of turns a
/// variable holds what the last turn that set it gave, which within that
/// turn is what the last call that set it gave; a variable that no tool set
/// holds what it held at the start.
pub proof fn lemma_run_last_write_wins<H>(
    registry: ToolRegistry<H>,
    first: StepView,
    turns: Seq<TurnView>,
    key: Seq<char>,
)
    ensures
        lookup(variables_of(played(registry, first, turns)), key) == last_written(
            registry,
            first,
            turns,
            key,
        ),
    decreases turns.len(),
{
    if turns.len() > 0 {
        lemma_run_last_write_wins(registry, first, turns.drop_last(), key);
        match played(registry, first, turns.drop_last()) {
            StepView::Ask(run, _) => {
                lemma_merged_lookup(
                    run.context_variables,
                    turn_updates(registry, run, turns.last()),
                    key,
                );
            },
            StepView::Done(_) => {},
        }
    }
}

} // verus!
