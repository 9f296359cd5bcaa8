//! A run of a conversation, one step at a time.
//!
//! The library decides and the caller talks to the model. A run starts with
//! `Swarm::run`, which gives the first [`Step`]. A step either asks for an
//! answer of the model, with the request to send, or is done, with the
//! response. The caller sends the request, hands what came back to
//! `Swarm::resume`, and gets the next step.
//!
//! A run appends at most `max_turns` messages, the answers of the model and
//! the messages of the tools counted alike: it asks the model only while it
//! has appended fewer, and in a turn it carries out only as many tool calls as
//! the limit then leaves room for.

use vstd::prelude::*;
use crate::context::{merged, ContextVariables, ContextView};
use crate::dispatch::{
    are_answers_to, dispatched, lemma_one_message_per_call, some_malformed, SwarmError,
};
use crate::json::JsonView;
use crate::registry::{ToolHandler, ToolRegistry};
use crate::swarm::Swarm;
use crate::types::{
    calls_view, clone_calls, clone_messages_from, clone_optional_text, clone_tools, messages_view,
    optional_text, tools_view, Agent, AgentView, Completion, CompletionView, Message, MessageView,
    Response, ResponseView, Tool, ToolCallView, ToolView,
};

verus! {

/// The most tokens that the model may answer with.
pub const MAX_TOKENS: u32 = 512;

/// What is sent to the model for one answer. `tools` is left out, rather
/// than empty, where the agent has no tools.
#[derive(Debug)]
pub struct CompletionRequest {
    pub model: String,
    pub instructions: String,
    pub messages: Vec<Message>,
    pub tools: Option<Vec<Tool>>,
    pub tool_choice: Option<String>,
    pub parallel_tool_calls: bool,
    pub max_tokens: u32,
}

/// The mathematical value of a [`CompletionRequest`].
pub ghost struct CompletionRequestView {
    pub model: Seq<char>,
    pub instructions: Seq<char>,
    pub messages: Seq<MessageView>,
    pub tools: Option<Seq<ToolView>>,
    pub tool_choice: Option<Seq<char>>,
    pub parallel_tool_calls: bool,
    pub max_tokens: nat,
}

impl View for CompletionRequest {
    type V = CompletionRequestView;

    open spec fn view(&self) -> CompletionRequestView {
        CompletionRequestView {
            model: self.model@,
            instructions: self.instructions@,
            messages: messages_view(self.messages),
            tools: match self.tools {
                Some(tools) => Some(tools_view(tools)),
                None => None,
            },
            tool_choice: optional_text(self.tool_choice),
            parallel_tool_calls: self.parallel_tool_calls,
            max_tokens: self.max_tokens as nat,
        }
    }
}

/// How the model is to choose among the tools that a request offers.
#[derive(Debug)]
pub enum ToolChoice {
    /// The model calls no tool.
    Disabled,
    /// The model calls tools as it sees fit.
    Unconstrained,
    /// The model calls some tool.
    Required,
    /// The model calls the tool of this name.
    Forced(String),
}

/// The mathematical value of a [`ToolChoice`].
pub ghost enum ToolChoiceView {
    Disabled,
    Unconstrained,
    Required,
    Forced(Seq<char>),
}

impl View for ToolChoice {
    type V = ToolChoiceView;

    open spec fn view(&self) -> ToolChoiceView {
        match self {
            ToolChoice::Disabled => ToolChoiceView::Disabled,
            ToolChoice::Unconstrained => ToolChoiceView::Unconstrained,
            ToolChoice::Required => ToolChoiceView::Required,
            ToolChoice::Forced(name) => ToolChoiceView::Forced(name@),
        }
    }
}

/// The choice that an agent's `tool_choice` stands for: the words `none`,
/// `auto` and `required` for themselves, and any other text for the tool of
/// that name.
pub open spec fn choice_of(text: Seq<char>) -> ToolChoiceView {
    if text == "none"@ {
        ToolChoiceView::Disabled
    } else if text == "auto"@ {
        ToolChoiceView::Unconstrained
    } else if text == "required"@ {
        ToolChoiceView::Required
    } else {
        ToolChoiceView::Forced(text)
    }
}

impl ToolChoice {
    /// Reads an agent's `tool_choice`.
    pub fn from_text(text: &str) -> (r: ToolChoice)
        ensures
            r@ == choice_of(text@),
    {
        let given = text.to_owned();
        if given == "none".to_owned() {
            ToolChoice::Disabled
        } else if given == "auto".to_owned() {
            ToolChoice::Unconstrained
        } else if given == "required".to_owned() {
            ToolChoice::Required
        } else {
            ToolChoice::Forced(given)
        }
    }
}

impl CompletionRequestView {
    /// The text of the system message that goes before the history: the
    /// instructions, unless they are empty.
    pub open spec fn system_text(self) -> Option<Seq<char>> {
        if self.instructions.len() == 0 {
            None
        } else {
            Some(self.instructions)
        }
    }

    /// The choice among the tools that goes with the request: the one that
    /// the agent made, where the request offers tools.
    pub open spec fn choice(self) -> Option<ToolChoiceView> {
        match (self.tools, self.tool_choice) {
            (Some(_), Some(text)) => Some(choice_of(text)),
            _ => None,
        }
    }

    /// Whether the model may call tools in parallel, said only where the
    /// request offers tools.
    pub open spec fn parallel(self) -> Option<bool> {
        match self.tools {
            Some(_) => Some(self.parallel_tool_calls),
            None => None,
        }
    }
}

impl CompletionRequest {
    /// The text of the system message that goes before the history.
    pub fn system_text(&self) -> (r: Option<&String>)
        ensures
            match r {
                Some(text) => self@.system_text() == Some(text@),
                None => self@.system_text() is None,
            },
    {
        if self.instructions.as_str().is_empty() {
            None
        } else {
            Some(&self.instructions)
        }
    }

    /// The choice among the tools that goes with the request.
    pub fn choice(&self) -> (r: Option<ToolChoice>)
        ensures
            match r {
                Some(choice) => self@.choice() == Some(choice@),
                None => self@.choice() is None,
            },
    {
        match (&self.tools, &self.tool_choice) {
            (Some(_), Some(text)) => Some(ToolChoice::from_text(text.as_str())),
            _ => None,
        }
    }

    /// Whether the model may call tools in parallel, said only where the
    /// request offers tools.
    pub fn parallel(&self) -> (r: Option<bool>)
        ensures
            r == self@.parallel(),
    {
        match &self.tools {
            Some(_) => Some(self.parallel_tool_calls),
            None => None,
        }
    }
}

/// The request that asks the model for the next answer in a conversation
/// that `agent` leads: the agent's model, instructions and settings, the
/// whole history, and the agent's tools if it has any.
pub open spec fn request_for(agent: AgentView, history: Seq<MessageView>) -> CompletionRequestView {
    CompletionRequestView {
        model: agent.model,
        instructions: agent.instructions,
        messages: history,
        tools: if agent.tools.len() == 0 {
            None
        } else {
            Some(agent.tools)
        },
        tool_choice: agent.tool_choice,
        parallel_tool_calls: agent.parallel_tool_calls,
        max_tokens: MAX_TOKENS as nat,
    }
}

/// The mathematical value of a [`Run`].
pub ghost struct RunView {
    /// The agent that leads the conversation now.
    pub agent: AgentView,
    /// The conversation so far: what the caller brought, then what the run
    /// appended.
    pub history: Seq<MessageView>,
    /// The shared variables.
    pub context_variables: ContextView,
    /// How many messages the caller brought.
    pub init_len: nat,
    /// The most messages that the run may append.
    pub max_turns: nat,
    /// Whether the tools that the model calls are carried out.
    pub execute_tools: bool,
}

impl RunView {
    /// The number of messages that the run has appended.
    pub open spec fn appended(self) -> int {
        self.history.len() - self.init_len
    }

    /// How many tool messages the run may append in a turn, once the answer
    /// of the model is appended.
    pub open spec fn room_for_tools(self) -> int {
        self.max_turns - self.appended() - 1
    }

    /// Whether the run may ask the model once more.
    pub open spec fn may_ask(self) -> bool {
        0 <= self.appended() < self.max_turns
    }

    /// The run after the model's answer is appended.
    pub open spec fn heard(self, completion: CompletionView) -> RunView {
        RunView { history: self.history.push(assistant_message(completion)), ..self }
    }

    /// The run after a turn: the model's answer and the messages of the tool
    /// calls are appended, the variables that the tools set are written over
    /// the shared ones, and the agent that a tool proposed, if any, leads.
    pub open spec fn after_turn(
        self,
        completion: CompletionView,
        partial: ResponseView,
    ) -> RunView {
        RunView {
            history: self.history.push(assistant_message(completion)) + partial.messages,
            agent: match partial.agent {
                Some(agent) => agent,
                None => self.agent,
            },
            context_variables: merged(self.context_variables, partial.context_variables),
            ..self
        }
    }

    /// What the run gives when it ends: the appended messages, the leading
    /// agent and the variables.
    pub open spec fn response(self) -> ResponseView {
        ResponseView {
            messages: self.history.skip(self.init_len as int),
            agent: Some(self.agent),
            context_variables: self.context_variables,
        }
    }

    /// What comes next: a question to the model while fewer than
    /// `max_turns` messages are appended, else the end.
    pub open spec fn next_step(self) -> StepView {
        if self.appended() < self.max_turns {
            StepView::Ask(self, request_for(self.agent, self.history))
        } else {
            StepView::Done(self.response())
        }
    }
}

/// The model's answer as a message of the conversation.
pub open spec fn assistant_message(completion: CompletionView) -> MessageView {
    MessageView::Assistant {
        content: completion.content,
        refusal: completion.refusal,
        tool_calls: completion.tool_calls,
    }
}

/// The run at its start.
pub open spec fn started(
    agent: AgentView,
    messages: Seq<MessageView>,
    context_variables: Option<ContextView>,
    max_turns: Option<usize>,
    execute_tools: bool,
) -> RunView {
    RunView {
        agent,
        history: messages,
        context_variables: match context_variables {
            Some(variables) => variables,
            None => ContextView::empty(),
        },
        init_len: messages.len(),
        max_turns: match max_turns {
            Some(n) => n as nat,
            None => usize::MAX as nat,
        },
        execute_tools,
    }
}

/// The tool calls of an answer that the run carries out. There are none
/// where the answer holds none, be it no list or an empty one, where tools
/// are not to be carried out, and where the answer itself has used up the
/// limit. Else they are the calls of the answer in order, as many of them as
/// the limit leaves room for: a tool message counts like any other message.
pub open spec fn calls_to_carry_out(run: RunView, completion: CompletionView) -> Option<
    Seq<ToolCallView>,
> {
    match completion.tool_calls {
        Some(calls) => if run.execute_tools && calls.len() > 0 && run.room_for_tools() > 0 {
            if calls.len() <= run.room_for_tools() {
                Some(calls)
            } else {
                Some(calls.take(run.room_for_tools()))
            }
        } else {
            None
        },
        None => None,
    }
}

/// The step that follows the turn in which the model answered `completion`
/// and the handler of the call at place `i`, if its tool is registered,
/// answered `answers[i]`. Without calls to carry out the run is over; else
/// the next step follows from the run after the turn.
pub open spec fn turn_step<H>(
    registry: ToolRegistry<H>,
    run: RunView,
    completion: CompletionView,
    answers: Seq<JsonView>,
) -> StepView {
    match calls_to_carry_out(run, completion) {
        Some(calls) => run.after_turn(
            completion,
            dispatched(registry, calls, answers),
        ).next_step(),
        None => StepView::Done(run.heard(completion).response()),
    }
}

/// Whether `step` is what follows the turn in which the model answered
/// `completion`, for answers that the handlers may have given when called
/// with the variables as they were before the turn.
pub open spec fn follows_turn<H: ToolHandler>(
    registry: ToolRegistry<H>,
    run: RunView,
    completion: CompletionView,
    step: StepView,
) -> bool {
    exists|answers: Seq<JsonView>|
        are_answers_to(
            registry,
            calls_to_carry_out(run, completion).unwrap(),
            run.context_variables,
            answers,
        ) && step == #[trigger] turn_step(registry, run, completion, answers)
}

/// One turn of a run as it went: what the model answered, and what the
/// handlers of its calls answered.
pub ghost struct TurnView {
    pub completion: CompletionView,
    pub answers: Seq<JsonView>,
}

/// The step that a run has reached after the turns `turns`, from the step
/// `first` on. A run that is over stays over.
pub open spec fn played<H>(
    registry: ToolRegistry<H>,
    first: StepView,
    turns: Seq<TurnView>,
) -> StepView
    decreases turns.len(),
{
    if turns.len() == 0 {
        first
    } else {
        match played(registry, first, turns.drop_last()) {
            StepView::Ask(run, _) => turn_step(
                registry,
                run,
                turns.last().completion,
                turns.last().answers,
            ),
            StepView::Done(response) => StepView::Done(response),
        }
    }
}

/// A run that waits for an answer of the model.
#[derive(Debug)]
pub struct Run {
    agent: Agent,
    history: Vec<Message>,
    context_variables: ContextVariables,
    init_len: usize,
    max_turns: usize,
    execute_tools: bool,
}

impl View for Run {
    type V = RunView;

    closed spec fn view(&self) -> RunView {
        RunView {
            agent: self.agent@,
            history: messages_view(self.history),
            context_variables: self.context_variables@,
            init_len: self.init_len as nat,
            max_turns: self.max_turns as nat,
            execute_tools: self.execute_tools,
        }
    }
}

/// One step of a run.
#[derive(Debug)]
pub enum Step {
    /// The model is to be asked: the run that waits, and what to send.
    Ask(Run, CompletionRequest),
    /// The run is over.
    Done(Response),
}

/// The mathematical value of a [`Step`].
pub ghost enum StepView {
    Ask(RunView, CompletionRequestView),
    Done(ResponseView),
}

impl StepView {
    /// Whether the step keeps to the limit `max_turns`: a run that waits has
    /// that limit and has appended fewer messages; a response holds no more
    /// messages than the limit.
    pub open spec fn within(self, max_turns: nat) -> bool {
        match self {
            StepView::Ask(run, _) => run.max_turns == max_turns && run.may_ask(),
            StepView::Done(response) => response.messages.len() <= max_turns,
        }
    }
}

impl View for Step {
    type V = StepView;

    open spec fn view(&self) -> StepView {
        match self {
            Step::Ask(run, request) => StepView::Ask(run@, request@),
            Step::Done(response) => StepView::Done(response@),
        }
    }
}

impl Run {
    #[verifier::type_invariant]
    spec fn waits(&self) -> bool {
        self.init_len <= self.history.len() && self.history.len() - self.init_len < self.max_turns
    }

    /// The agent that leads the conversation.
    pub fn agent(&self) -> (r: &Agent)
        ensures
            r@ == self@.agent,
            self@.may_ask(),
    {
        proof {
            use_type_invariant(self);
        }
        &self.agent
    }

    /// The conversation so far: what the caller brought, then what the run
    /// appended.
    pub fn history(&self) -> (r: &Vec<Message>)
        ensures
            messages_view(*r) == self@.history,
    {
        &self.history
    }

    /// The shared variables.
    pub fn context_variables(&self) -> (r: &ContextVariables)
        ensures
            r@ == self@.context_variables,
    {
        &self.context_variables
    }

    /// The number of messages that the run has appended.
    pub fn appended(&self) -> (r: usize)
        ensures
            r == self@.appended(),
            self@.may_ask(),
    {
        proof {
            use_type_invariant(self);
        }
        self.history.len() - self.init_len
    }
}

/// Builds the request that asks the model for the next answer.
pub fn completion_request(agent: &Agent, history: &Vec<Message>) -> (r: CompletionRequest)
    ensures
        r@ == request_for(agent@, messages_view(*history)),
{
    let tools = if agent.tools.len() == 0 {
        None
    } else {
        Some(clone_tools(&agent.tools))
    };
    let messages = clone_messages_from(history, 0);
    assert(messages_view(*history).skip(0) =~= messages_view(*history));
    CompletionRequest {
        model: agent.model.clone(),
        instructions: agent.instructions.clone(),
        messages,
        tools,
        tool_choice: clone_optional_text(&agent.tool_choice),
        parallel_tool_calls: agent.parallel_tool_calls,
        max_tokens: MAX_TOKENS,
    }
}

/// Decides what comes next for a run in the given state.
fn step_from(
    agent: Agent,
    history: Vec<Message>,
    context_variables: ContextVariables,
    init_len: usize,
    max_turns: usize,
    execute_tools: bool,
) -> (r: Step)
    requires
        init_len <= history.len(),
    ensures
        r@ == (RunView {
            agent: agent@,
            history: messages_view(history),
            context_variables: context_variables@,
            init_len: init_len as nat,
            max_turns: max_turns as nat,
            execute_tools,
        }).next_step(),
{
    if history.len() - init_len < max_turns {
        let request = completion_request(&agent, &history);
        Step::Ask(
            Run { agent, history, context_variables, init_len, max_turns, execute_tools },
            request,
        )
    } else {
        let messages = clone_messages_from(&history, init_len);
        Step::Done(Response { messages, agent: Some(agent), context_variables })
    }
}

impl<H: ToolHandler> Swarm<H> {
    /// Starts a run of the conversation `messages` under `agent`.
    ///
    /// With `stream` the run is refused: answers are not streamed. Else the
    /// first step is given: a question to the model, or, where `max_turns` is
    /// zero, the end. `model_override` and `debug` change nothing in the steps.
    pub fn run(
        &self,
        agent: Agent,
        messages: Vec<Message>,
        context_variables: Option<ContextVariables>,
        model_override: Option<String>,
        stream: bool,
        debug: bool,
        max_turns: Option<usize>,
        execute_tools: bool,
    ) -> (r: Result<Step, SwarmError>)
        ensures
            match r {
                Ok(step) => !stream && step@ == started(
                    agent@,
                    messages_view(messages),
                    match context_variables {
                        Some(variables) => Some(variables@),
                        None => None,
                    },
                    max_turns,
                    execute_tools,
                ).next_step(),
                Err(e) => stream && e is StreamingUnsupported,
            },
            r matches Ok(step) ==> step@.within(
                match max_turns {
                    Some(n) => n as nat,
                    None => usize::MAX as nat,
                },
            ),
    {
        if stream {
            return Err(SwarmError::StreamingUnsupported);
        }
        let variables = match context_variables {
            Some(variables) => variables,
            None => ContextVariables::new(),
        };
        let limit = match max_turns {
            Some(n) => n,
            None => usize::MAX,
        };
        let init_len = messages.len();
        assert(messages_view(messages).skip(init_len as int) =~= Seq::<MessageView>::empty());
        Ok(step_from(agent, messages, variables, init_len, limit, execute_tools))
    }

    /// Takes the run one turn further with what came back from the model.
    ///
    /// A failure of the model ends the run with an error. An answer is
    /// appended to the history. Without tool calls, where tools are not to be
    /// carried out, or where the limit is reached with the answer, the run is
    /// then over and no tool is called. Else the calls are carried out in
    /// order as by `handle_tool_calls`, as many as the limit leaves room for,
    /// with the variables as they were before the turn; their messages are
    /// appended, their variables merged, and the last agent that a tool
    /// proposed takes the lead; the next step follows from the run in that
    /// state. No step passes the limit.
    pub fn resume(&self, run: Run, event: Result<Completion, String>) -> (r: Result<
        Step,
        SwarmError,
    >)
        ensures
            run@.may_ask(),
            r matches Ok(step) ==> step@.within(run@.max_turns),
            match event {
                Err(reason) => r matches Err(SwarmError::CompletionFailed(text)) && text@
                    == reason@,
                Ok(completion) => match calls_to_carry_out(run@, completion@) {
                    Some(calls) => match r {
                        Ok(step) => !some_malformed(self.registry, calls) && follows_turn(
                            self.registry,
                            run@,
                            completion@,
                            step@,
                        ),
                        Err(e) => e is MalformedArguments && some_malformed(self.registry, calls),
                    },
                    None => r matches Ok(step) && step@ == StepView::Done(
                        run@.heard(completion@).response(),
                    ),
                },
            },
    {
        proof {
            use_type_invariant(&run);
        }
        let ghost at_start = run@;
        let ghost answer = event->Ok_0@;
        let completion = match event {
            Ok(completion) => completion,
            Err(reason) => {
                return Err(SwarmError::CompletionFailed(reason));
            },
        };
        let Run { agent, mut history, mut context_variables, init_len, max_turns, execute_tools } = run;
        let ghost before = messages_view(history);
        let tool_calls = completion.tool_calls;
        let spoken = Message::Assistant {
            content: completion.content,
            refusal: completion.refusal,
            tool_calls: match &tool_calls {
                Some(calls) => Some(clone_calls(calls)),
                None => None,
            },
        };
        assert(spoken@ == assistant_message(answer));
        history.push(spoken);
        assert(messages_view(history) =~= before.push(assistant_message(answer)));
        let room = max_turns - (history.len() - init_len);
        let mut calls = match tool_calls {
            Some(calls) if execute_tools && calls.len() > 0 && room > 0 => calls,
            _ => {
                let messages = clone_messages_from(&history, init_len);
                return Ok(Step::Done(Response { messages, agent: Some(agent), context_variables }));
            },
        };
        if calls.len() > room {
            calls.truncate(room);
        }
        assert(calls_view(calls) =~= calls_to_carry_out(at_start, answer).unwrap());
        let partial = match self.handle_tool_calls(&calls, &context_variables) {
            Ok(partial) => partial,
            Err(e) => {
                return Err(e);
            },
        };
        let ghost partial_view = partial@;
        let ghost answers = choose|answers: Seq<JsonView>|
            are_answers_to(self.registry, calls_view(calls), at_start.context_variables, answers)
                && partial_view == #[trigger] dispatched(
                self.registry,
                calls_view(calls),
                answers,
            );
        proof {
            lemma_one_message_per_call(self.registry, calls_view(calls), answers);
        }
        let ghost heard = messages_view(history);
        let Response { messages: mut tool_messages, agent: proposed, context_variables: updates } =
            partial;
        history.append(&mut tool_messages);
        assert(messages_view(history) =~= heard + partial_view.messages);
        context_variables.extend(&updates);
        let leader = match proposed {
            Some(new_agent) => new_agent,
            None => agent,
        };
        let step = step_from(leader, history, context_variables, init_len, max_turns, execute_tools);
        assert(step@ == turn_step(self.registry, at_start, answer, answers));
        Ok(step)
    }
}

} // verus!
