use std::sync::atomic::{AtomicUsize, Ordering};
use std::sync::Arc;

use swarm_rs::context::ContextVariables;
use swarm_rs::dispatch::{not_found_message, prepare_arguments, record_result, SwarmError};
use swarm_rs::json::Json;
use swarm_rs::registry::ToolHandler;
use swarm_rs::swarm::Swarm;
use swarm_rs::types::{Agent, Message, Response, ToolCall, ToolResult};

enum Handler {
    /// Answers with the JSON that the text spells out.
    Fixed(String),
    /// Answers with the arguments that it was given, as JSON text.
    Echo,
    /// Counts its calls and answers `null`.
    Count(Arc<AtomicUsize>),
}

impl ToolHandler for Handler {
    fn invoke(&self, arguments: Json) -> Json {
        match self {
            Handler::Fixed(text) => Json::parse(text).unwrap(),
            Handler::Echo => Json::Text(arguments.to_text()),
            Handler::Count(calls) => {
                calls.fetch_add(1, Ordering::SeqCst);
                Json::Null
            }
        }
    }
}

fn call(id: &str, name: &str, arguments: &str) -> ToolCall {
    ToolCall { id: id.to_string(), name: name.to_string(), arguments: arguments.to_string() }
}

fn tool_message(message: &Message) -> (&str, &str) {
    match message {
        Message::Tool { content, tool_call_id } => (content.as_str(), tool_call_id.as_str()),
        _ => panic!("a tool message was expected"),
    }
}

fn agent_json(name: &str) -> String {
    format!(
        "{{\"name\": \"{}\", \"model\": \"m\", \"instructions\": \"i\", \"tools\": [], \
         \"parallel_tool_calls\": true}}",
        name
    )
}

#[test]
fn an_unregistered_tool_is_answered_in_band() {
    let swarm: Swarm<Handler> = Swarm::new();
    let response = swarm
        .handle_tool_calls(&vec![call("call_1", "get_time", "{}")], &ContextVariables::new())
        .unwrap();
    assert_eq!(response.messages.len(), 1);
    assert_eq!(tool_message(&response.messages[0]), ("error: tool get_time not found.", "call_1"));
    assert!(response.agent.is_none());
    assert_eq!(response.context_variables.len(), 0);
}

#[test]
fn an_unregistered_tool_does_not_have_its_arguments_read() {
    let swarm: Swarm<Handler> = Swarm::new();
    let response = swarm
        .handle_tool_calls(&vec![call("c", "nope", "this is no json")], &ContextVariables::new())
        .unwrap();
    assert_eq!(tool_message(&response.messages[0]), ("error: tool nope not found.", "c"));
}

#[test]
fn the_turn_goes_on_after_an_unregistered_tool() {
    let mut swarm = Swarm::new();
    swarm.register_tool("known", "", Json::Null, Handler::Fixed("\"fine\"".to_string()));
    let response = swarm
        .handle_tool_calls(
            &vec![call("a", "unknown", "{}"), call("b", "known", "{}")],
            &ContextVariables::new(),
        )
        .unwrap();
    assert_eq!(response.messages.len(), 2);
    assert_eq!(tool_message(&response.messages[0]), ("error: tool unknown not found.", "a"));
    assert_eq!(tool_message(&response.messages[1]), ("fine", "b"));
}

#[test]
fn no_calls_give_an_empty_response() {
    let swarm: Swarm<Handler> = Swarm::new();
    let response = swarm.handle_tool_calls(&vec![], &ContextVariables::new()).unwrap();
    assert!(response.messages.is_empty());
    assert!(response.agent.is_none());
    assert_eq!(response.context_variables.len(), 0);
}

#[test]
fn the_last_call_to_set_a_variable_wins() {
    let mut swarm = Swarm::new();
    swarm.register_tool(
        "first",
        "",
        Json::Null,
        Handler::Fixed(
            "{\"value\": \"a\", \"context_variables\": {\"units\": \"F\", \"one\": \"1\"}}".to_string(),
        ),
    );
    swarm.register_tool(
        "second",
        "",
        Json::Null,
        Handler::Fixed("{\"value\": \"b\", \"context_variables\": {\"units\": \"C\"}}".to_string()),
    );
    let response = swarm
        .handle_tool_calls(
            &vec![call("1", "first", "{}"), call("2", "second", "{}")],
            &ContextVariables::new(),
        )
        .unwrap();
    assert_eq!(response.context_variables.get("units").unwrap(), "C");
    assert_eq!(response.context_variables.get("one").unwrap(), "1");
    assert_eq!(response.context_variables.len(), 2);
    let reversed = swarm
        .handle_tool_calls(
            &vec![call("2", "second", "{}"), call("1", "first", "{}")],
            &ContextVariables::new(),
        )
        .unwrap();
    assert_eq!(reversed.context_variables.get("units").unwrap(), "F");
}

#[test]
fn the_last_call_to_hand_over_wins() {
    let mut swarm = Swarm::new();
    swarm.register_tool(
        "to_billing",
        "",
        Json::Null,
        Handler::Fixed(format!("{{\"assistant\": {}}}", agent_json("Billing Agent"))),
    );
    swarm.register_tool(
        "to_sales",
        "",
        Json::Null,
        Handler::Fixed(format!("{{\"assistant\": {}}}", agent_json("Sales Agent"))),
    );
    swarm.register_tool("plain", "", Json::Null, Handler::Fixed("\"ok\"".to_string()));
    let response = swarm
        .handle_tool_calls(
            &vec![
                call("1", "to_billing", "{}"),
                call("2", "to_sales", "{}"),
                call("3", "plain", "{}"),
            ],
            &ContextVariables::new(),
        )
        .unwrap();
    assert_eq!(response.agent.unwrap().name, "Sales Agent");
    assert_eq!(response.messages.len(), 3);
    let reversed = swarm
        .handle_tool_calls(
            &vec![call("2", "to_sales", "{}"), call("1", "to_billing", "{}")],
            &ContextVariables::new(),
        )
        .unwrap();
    assert_eq!(reversed.agent.unwrap().name, "Billing Agent");
}

#[test]
fn arguments_that_are_no_json_object_stop_the_turn() {
    let calls = Arc::new(AtomicUsize::new(0));
    let mut swarm = Swarm::new();
    swarm.register_tool("count", "", Json::Null, Handler::Count(calls.clone()));
    for arguments in ["", "not json", "{\"a\": ", "[1, 2]", "\"text\"", "null", "3"] {
        let result = swarm
            .handle_tool_calls(&vec![call("1", "count", arguments)], &ContextVariables::new());
        assert!(matches!(result, Err(SwarmError::MalformedArguments)));
    }
    assert_eq!(calls.load(Ordering::SeqCst), 0);
    let later = swarm.handle_tool_calls(
        &vec![call("1", "count", "{}"), call("2", "count", "oops"), call("3", "count", "{}")],
        &ContextVariables::new(),
    );
    assert!(matches!(later, Err(SwarmError::MalformedArguments)));
    assert_eq!(calls.load(Ordering::SeqCst), 1);
}

#[test]
fn a_handler_gets_the_arguments_with_the_shared_variables() {
    let mut swarm = Swarm::new();
    swarm.register_tool("echo", "", Json::Null, Handler::Echo);
    let mut shared = ContextVariables::new();
    shared.insert("user", "ada".to_string());
    let response = swarm
        .handle_tool_calls(&vec![call("1", "echo", "{\"location\": \"Boston\"}")], &shared)
        .unwrap();
    assert_eq!(
        tool_message(&response.messages[0]).0,
        "{\"context_variables\":{\"user\":\"ada\"},\"location\":\"Boston\"}"
    );
}

#[test]
fn the_shared_variables_replace_an_argument_of_that_name() {
    let mut swarm = Swarm::new();
    swarm.register_tool("echo", "", Json::Null, Handler::Echo);
    let response = swarm
        .handle_tool_calls(
            &vec![call("1", "echo", "{\"context_variables\": 5, \"x\": 1}")],
            &ContextVariables::new(),
        )
        .unwrap();
    assert_eq!(tool_message(&response.messages[0]).0, "{\"context_variables\":{},\"x\":1}");
}

#[test]
fn every_call_of_a_turn_sees_the_variables_from_before_the_turn() {
    let mut swarm = Swarm::new();
    swarm.register_tool(
        "set",
        "",
        Json::Null,
        Handler::Fixed("{\"value\": \"set\", \"context_variables\": {\"k\": \"new\"}}".to_string()),
    );
    swarm.register_tool("echo", "", Json::Null, Handler::Echo);
    let mut shared = ContextVariables::new();
    shared.insert("k", "old".to_string());
    let response = swarm
        .handle_tool_calls(&vec![call("1", "set", "{}"), call("2", "echo", "{}")], &shared)
        .unwrap();
    assert_eq!(tool_message(&response.messages[1]).0, "{\"context_variables\":{\"k\":\"old\"}}");
    assert_eq!(response.context_variables.get("k").unwrap(), "new");
    assert_eq!(shared.get("k").unwrap(), "old");
}

#[test]
fn prepare_arguments_puts_the_variables_into_the_object() {
    let mut shared = ContextVariables::new();
    shared.insert("a", "1".to_string());
    let arguments = prepare_arguments("{\"x\": [1]}", &shared).unwrap();
    assert_eq!(arguments.to_text(), "{\"context_variables\":{\"a\":\"1\"},\"x\":[1]}");
    assert_eq!(
        arguments.get("context_variables").unwrap().get("a").unwrap().as_text().unwrap(),
        "1"
    );
    assert!(matches!(prepare_arguments("[]", &shared), Err(SwarmError::MalformedArguments)));
    assert!(matches!(prepare_arguments("{", &shared), Err(SwarmError::MalformedArguments)));
}

#[test]
fn not_found_message_names_the_tool_and_the_call() {
    let message = not_found_message(&call("call_9", "get_weather", "{}"));
    assert_eq!(tool_message(&message), ("error: tool get_weather not found.", "call_9"));
    let unnamed = not_found_message(&call("", "", ""));
    assert_eq!(tool_message(&unnamed), ("error: tool  not found.", ""));
}

#[test]
fn record_result_takes_a_result_in() {
    let mut partial =
        Response { messages: vec![], agent: None, context_variables: ContextVariables::new() };
    let mut variables = ContextVariables::new();
    variables.insert("k", "v".to_string());
    record_result(
        &mut partial,
        "id_1",
        ToolResult { value: "one".to_string(), agent: None, context_variables: variables },
    );
    record_result(
        &mut partial,
        "id_2",
        ToolResult {
            value: "two".to_string(),
            agent: Some(Agent::default()),
            context_variables: ContextVariables::new(),
        },
    );
    record_result(
        &mut partial,
        "id_3",
        ToolResult {
            value: "three".to_string(),
            agent: None,
            context_variables: ContextVariables::new(),
        },
    );
    assert_eq!(partial.messages.len(), 3);
    assert_eq!(tool_message(&partial.messages[0]), ("one", "id_1"));
    assert_eq!(tool_message(&partial.messages[1]), ("two", "id_2"));
    assert_eq!(tool_message(&partial.messages[2]), ("three", "id_3"));
    assert_eq!(partial.agent.unwrap().name, "Agent");
    assert_eq!(partial.context_variables.get("k").unwrap(), "v");
}

#[test]
fn a_structured_answer_sets_the_value_and_the_variables() {
    let mut swarm = Swarm::new();
    swarm.register_tool(
        "get_weather",
        "",
        Json::Null,
        Handler::Fixed("{\"value\": \"67F\", \"context_variables\": {\"units\": \"F\"}}".to_string()),
    );
    let response = swarm
        .handle_tool_calls(&vec![call("call_1", "get_weather", "{}")], &ContextVariables::new())
        .unwrap();
    assert_eq!(tool_message(&response.messages[0]), ("67F", "call_1"));
    assert_eq!(response.context_variables.len(), 1);
    assert_eq!(response.context_variables.get("units").unwrap(), "F");
    assert!(response.agent.is_none());
}

#[test]
fn errors_say_what_went_wrong() {
    assert_eq!(SwarmError::StreamingUnsupported.message(), "streaming is not supported");
    assert_eq!(
        SwarmError::MalformedArguments.message(),
        "the arguments of a tool call are no JSON object"
    );
    assert_eq!(
        SwarmError::CompletionFailed("timeout".to_string()).message(),
        "the completion request failed: timeout"
    );
}
