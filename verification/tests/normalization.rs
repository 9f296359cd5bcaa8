use swarm_rs::decode::{bool_field, nullable_text_field, text_field, tools_from_json};
use swarm_rs::json::Json;
use swarm_rs::normalize::{classify, normalize, read_handoff, ResultShape};
use swarm_rs::registry::ToolHandler;
use swarm_rs::swarm::Swarm;
use swarm_rs::types::{Agent, Tool, ToolResult};

struct Never;

impl ToolHandler for Never {
    fn invoke(&self, _arguments: Json) -> Json {
        Json::Null
    }
}

fn json(text: &str) -> Json {
    Json::parse(text).unwrap()
}

const BILLING: &str = "{\"name\": \"Billing Agent\", \"model\": \"gpt-4o\", \
    \"instructions\": \"Handle billing.\", \"tools\": [], \"tool_choice\": null, \
    \"parallel_tool_calls\": false}";

#[test]
fn classify_looks_for_value_then_assistant() {
    assert_eq!(classify(&json("{\"value\": 1}")), ResultShape::Structured);
    assert_eq!(classify(&json("{\"value\": 1, \"assistant\": 2}")), ResultShape::Structured);
    assert_eq!(classify(&json("{\"assistant\": 2}")), ResultShape::Handoff);
    assert_eq!(classify(&json("{\"temp\": 67}")), ResultShape::Plain);
    assert_eq!(classify(&json("\"value\"")), ResultShape::Plain);
    assert_eq!(classify(&json("[\"value\"]")), ResultShape::Plain);
    assert_eq!(classify(&Json::Null), ResultShape::Plain);
}

#[test]
fn a_structured_result_round_trips() {
    let result = normalize(json("{\"value\": \"67F\", \"context_variables\": {\"units\": \"F\"}}"));
    assert_eq!(result.value, "67F");
    assert!(result.agent.is_none());
    assert_eq!(result.context_variables.len(), 1);
    assert_eq!(result.context_variables.get("units").unwrap(), "F");
}

#[test]
fn a_structured_result_may_hand_over() {
    let text = format!(
        "{{\"value\": \"done\", \"agent\": {}, \"context_variables\": {{}}}}",
        BILLING
    );
    let result = normalize(json(&text));
    assert_eq!(result.value, "done");
    assert_eq!(result.context_variables.len(), 0);
    let agent = result.agent.unwrap();
    assert_eq!(agent.name, "Billing Agent");
    assert_eq!(agent.model, "gpt-4o");
    assert!(!agent.parallel_tool_calls);
}

#[test]
fn a_structured_result_with_a_null_agent_has_none() {
    let result = normalize(json("{\"value\": \"v\", \"agent\": null, \"context_variables\": {}}"));
    assert_eq!(result.value, "v");
    assert!(result.agent.is_none());
}

#[test]
fn a_structured_result_that_cannot_be_read_degrades_to_its_value() {
    let no_variables = normalize(json("{\"value\": \"kept\"}"));
    assert_eq!(no_variables.value, "kept");
    assert!(no_variables.agent.is_none());
    assert_eq!(no_variables.context_variables.len(), 0);

    let bad_variables = normalize(json("{\"value\": \"kept\", \"context_variables\": {\"n\": 1}}"));
    assert_eq!(bad_variables.value, "kept");
    assert_eq!(bad_variables.context_variables.len(), 0);

    let bad_agent = normalize(json(
        "{\"value\": \"kept\", \"agent\": {\"name\": \"x\"}, \"context_variables\": {\"a\": \"b\"}}",
    ));
    assert_eq!(bad_agent.value, "kept");
    assert!(bad_agent.agent.is_none());
    assert_eq!(bad_agent.context_variables.len(), 0);

    let no_text = normalize(json("{\"value\": 5, \"context_variables\": {}}"));
    assert_eq!(no_text.value, "");
    assert!(no_text.agent.is_none());
    assert_eq!(no_text.context_variables.len(), 0);
}

#[test]
fn a_handoff_names_the_agent_under_assistant() {
    let text = format!("{{\"assistant\": {}}}", BILLING);
    let result = normalize(json(&text));
    let agent = result.agent.unwrap();
    assert_eq!(agent.name, "Billing Agent");
    assert_eq!(agent.model, "gpt-4o");
    assert_eq!(agent.instructions, "Handle billing.");
    assert_eq!(result.context_variables.len(), 0);
    assert_eq!(
        result.value,
        "{\"assistant\":{\"instructions\":\"Handle billing.\",\"model\":\"gpt-4o\",\
\"name\":\"Billing Agent\",\"parallel_tool_calls\":false,\"tool_choice\":null,\"tools\":[]}}"
    );
}

#[test]
fn a_handoff_may_spell_the_agent_out_itself() {
    let result = normalize(json(
        "{\"assistant\": \"Billing Agent\", \"name\": \"Billing Agent\", \"model\": \"m\", \
         \"instructions\": \"i\", \"tools\": [], \"parallel_tool_calls\": true}",
    ));
    let agent = result.agent.unwrap();
    assert_eq!(agent.name, "Billing Agent");
    assert_eq!(agent.model, "m");
    assert!(agent.tool_choice.is_none());
    assert!(agent.parallel_tool_calls);
    assert_eq!(
        result.value,
        "{\"assistant\":\"Billing Agent\",\"instructions\":\"i\",\"model\":\"m\",\
\"name\":\"Billing Agent\",\"parallel_tool_calls\":true,\"tools\":[]}"
    );
}

#[test]
fn a_handoff_the_object_itself_comes_before_the_field() {
    let text = format!(
        "{{\"assistant\": {}, \"name\": \"Outer\", \"model\": \"m\", \"instructions\": \"i\", \
         \"tools\": [], \"parallel_tool_calls\": true}}",
        BILLING
    );
    assert_eq!(read_handoff(&json(&text)).unwrap().name, "Outer");
}

#[test]
fn a_handoff_without_an_agent_keeps_the_text() {
    let result = normalize(json("{\"assistant\": \"Billing Agent\"}"));
    assert!(result.agent.is_none());
    assert_eq!(result.value, "{\"assistant\":\"Billing Agent\"}");
    assert_eq!(result.context_variables.len(), 0);
}

#[test]
fn a_plain_string_is_used_as_it_is() {
    let result = normalize(Json::Text("It is 67F in Boston.".to_string()));
    assert_eq!(result.value, "It is 67F in Boston.");
    assert!(result.agent.is_none());
    assert_eq!(result.context_variables.len(), 0);
}

#[test]
fn any_other_value_is_written_as_json() {
    assert_eq!(
        normalize(json("{\"temp\": 67, \"unit\": \"F\", \"location\": \"Boston\"}")).value,
        "{\"location\":\"Boston\",\"temp\":67,\"unit\":\"F\"}"
    );
    assert_eq!(normalize(json("67")).value, "67");
    assert_eq!(normalize(json("[1, 2]")).value, "[1,2]");
    assert_eq!(normalize(Json::Null).value, "null");
    assert_eq!(normalize(Json::Bool(true)).value, "true");
}

#[test]
fn a_swarm_normalizes_alike() {
    let swarm: Swarm<Never> = Swarm::new();
    let result = swarm.handle_function_result(json(
        "{\"value\": \"67F\", \"context_variables\": {\"units\": \"F\"}}",
    ));
    assert_eq!(result.value, "67F");
    assert_eq!(result.context_variables.get("units").unwrap(), "F");
    assert!(result.agent.is_none());
    assert_eq!(swarm.handle_function_result(json("{\"a\": 1}")).value, "{\"a\":1}");
}

#[test]
fn an_agent_is_read_from_its_fields() {
    let agent = Agent::from_json(&json(
        "{\"name\": \"Weather Agent\", \"model\": \"gpt-4\", \"instructions\": \"Help.\", \
         \"tools\": [{\"name\": \"get_weather\", \"description\": \"Get the weather\", \
         \"parameters\": {\"type\": \"object\"}}], \"tool_choice\": \"auto\", \
         \"parallel_tool_calls\": true, \"more\": 1}",
    ))
    .unwrap();
    assert_eq!(agent.name, "Weather Agent");
    assert_eq!(agent.model, "gpt-4");
    assert_eq!(agent.instructions, "Help.");
    assert_eq!(agent.tools.len(), 1);
    assert_eq!(agent.tools[0].name, "get_weather");
    assert_eq!(agent.tools[0].description, "Get the weather");
    assert_eq!(agent.tools[0].parameters.to_text(), "{\"type\":\"object\"}");
    assert_eq!(agent.tool_choice.unwrap(), "auto");
    assert!(agent.parallel_tool_calls);
}

#[test]
fn an_agent_needs_its_fields() {
    assert!(Agent::from_json(&json(BILLING)).is_some());
    let without = |field: &str| {
        let mut fields = match json(BILLING) {
            Json::Object(fields) => fields,
            _ => panic!("an object was expected"),
        };
        fields.retain(|f| f.0 != field);
        Agent::from_json(&Json::Object(fields))
    };
    assert!(without("name").is_none());
    assert!(without("model").is_none());
    assert!(without("instructions").is_none());
    assert!(without("tools").is_none());
    assert!(without("parallel_tool_calls").is_none());
    assert!(without("tool_choice").unwrap().tool_choice.is_none());
    assert!(Agent::from_json(&json("[1]")).is_none());
    assert!(Agent::from_json(&Json::Null).is_none());
    assert!(Agent::from_json(&json(
        "{\"name\": 1, \"model\": \"m\", \"instructions\": \"i\", \"tools\": [], \
         \"parallel_tool_calls\": true}"
    ))
    .is_none());
    assert!(Agent::from_json(&json(
        "{\"name\": \"n\", \"model\": \"m\", \"instructions\": \"i\", \"tools\": [], \
         \"tool_choice\": 3, \"parallel_tool_calls\": true}"
    ))
    .is_none());
    assert!(Agent::from_json(&json(
        "{\"name\": \"n\", \"model\": \"m\", \"instructions\": \"i\", \"tools\": [{}], \
         \"parallel_tool_calls\": true}"
    ))
    .is_none());
}

#[test]
fn a_tool_is_read_from_its_fields() {
    let tool = Tool::from_json(&json(
        "{\"name\": \"t\", \"description\": \"d\", \"parameters\": null}",
    ))
    .unwrap();
    assert_eq!(tool.name, "t");
    assert_eq!(tool.description, "d");
    assert!(matches!(tool.parameters, Json::Null));
    assert!(Tool::from_json(&json("{\"name\": \"t\", \"description\": \"d\"}")).is_none());
    assert!(Tool::from_json(&json("{\"name\": \"t\", \"parameters\": {}}")).is_none());
    assert!(Tool::from_json(&json("\"t\"")).is_none());
    assert!(tools_from_json(&json("{}")).is_none());
    assert_eq!(tools_from_json(&json("[]")).unwrap().len(), 0);
}

#[test]
fn fields_are_read_by_kind() {
    let object = json("{\"s\": \"text\", \"b\": true, \"n\": null, \"i\": 1}");
    assert_eq!(text_field(&object, "s", 0, 4).unwrap(), "text");
    assert!(text_field(&object, "b", 1, 4).is_none());
    assert!(text_field(&object, "missing", 0, 4).is_none());
    assert_eq!(bool_field(&object, "b", 1, 4), Some(true));
    assert_eq!(bool_field(&object, "s", 0, 4), None);
    assert_eq!(nullable_text_field(&object, "s", 0, 4), Some(Some("text".to_string())));
    assert_eq!(nullable_text_field(&object, "n", 2, 4), Some(None));
    assert_eq!(nullable_text_field(&object, "missing", 0, 4), Some(None));
    assert_eq!(nullable_text_field(&object, "i", 3, 4), None);
}

#[test]
fn fields_are_read_by_place_from_an_array() {
    let array = json("[\"text\", true, null]");
    assert_eq!(text_field(&array, "s", 0, 3).unwrap(), "text");
    assert!(text_field(&array, "s", 1, 3).is_none());
    assert_eq!(bool_field(&array, "b", 1, 3), Some(true));
    assert_eq!(nullable_text_field(&array, "n", 2, 3), Some(None));
    assert_eq!(nullable_text_field(&array, "n", 0, 3), Some(Some("text".to_string())));
    assert_eq!(nullable_text_field(&array, "n", 1, 3), None);
    assert!(text_field(&array, "s", 0, 2).is_none());
    assert!(text_field(&array, "s", 0, 4).is_none());
    assert!(array.field("s", 3, 3).is_none());
    assert!(array.field("s", 2, 3).is_some());
    assert!(json("\"text\"").field("s", 0, 1).is_none());
    assert_eq!(json("{\"s\": 1}").field("s", 5, 1).unwrap().to_text(), "1");
}

#[test]
fn an_agent_is_read_from_an_array_of_its_fields() {
    let agent = Agent::from_json(&json(
        "[\"B\", \"m\", \"i\", [[\"t\", \"d\", {\"type\": \"object\"}],          {\"name\": \"u\", \"description\": \"e\", \"parameters\": null}], \"auto\", false]",
    ))
    .unwrap();
    assert_eq!(agent.name, "B");
    assert_eq!(agent.model, "m");
    assert_eq!(agent.instructions, "i");
    assert_eq!(agent.tools.len(), 2);
    assert_eq!(agent.tools[0].name, "t");
    assert_eq!(agent.tools[0].description, "d");
    assert_eq!(agent.tools[0].parameters.to_text(), "{\"type\":\"object\"}");
    assert_eq!(agent.tools[1].name, "u");
    assert_eq!(agent.tool_choice.as_deref(), Some("auto"));
    assert!(!agent.parallel_tool_calls);
    assert!(Agent::from_json(&json("[\"B\", \"m\", \"i\", [], null]")).is_none());
    assert!(Agent::from_json(&json("[\"B\", \"m\", \"i\", [], null, true, 1]")).is_none());
    assert!(Agent::from_json(&json("[\"B\", \"m\", \"i\", [], 1, true]")).is_none());
    assert!(Agent::from_json(&json("[\"B\", \"m\", \"i\", [[\"t\", \"d\"]], null, true]")).is_none());
    assert!(Agent::from_json(&json("[]")).is_none());
    assert!(Tool::from_json(&json("[\"t\", \"d\", 1, 2]")).is_none());
    assert_eq!(Tool::from_json(&json("[\"t\", \"d\", 1]")).unwrap().parameters.to_text(), "1");
}

#[test]
fn a_structured_result_may_name_its_agent_by_an_array() {
    let result = normalize(json(
        "{\"value\": \"v\", \"agent\": [\"B\", \"m\", \"i\", [], null, true],          \"context_variables\": {\"k\": \"w\"}}",
    ));
    assert_eq!(result.value, "v");
    assert_eq!(result.agent.unwrap().name, "B");
    assert_eq!(result.context_variables.get("k").unwrap(), "w");
    let handoff = normalize(json("{\"assistant\": [\"B\", \"m\", \"i\", [], null, true]}"));
    assert_eq!(handoff.agent.unwrap().name, "B");
    let read = ToolResult::from_json(&json("[\"v\", null, {\"k\": \"w\"}]")).unwrap();
    assert_eq!(read.value, "v");
    assert!(read.agent.is_none());
    assert_eq!(read.context_variables.get("k").unwrap(), "w");
    assert!(ToolResult::from_json(&json("[\"v\", null]")).is_none());
}

#[test]
fn a_tool_result_is_read_from_its_fields() {
    assert!(ToolResult::from_json(&json("{\"value\": \"v\", \"context_variables\": {}}")).is_some());
    assert!(ToolResult::from_json(&json("{\"value\": \"v\"}")).is_none());
    assert!(ToolResult::from_json(&json("{\"context_variables\": {}}")).is_none());
    assert!(ToolResult::from_json(&json("{\"value\": 1, \"context_variables\": {}}")).is_none());
    assert!(ToolResult::from_json(&json(
        "{\"value\": \"v\", \"agent\": 1, \"context_variables\": {}}"
    ))
    .is_none());
}
