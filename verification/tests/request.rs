use auto_commit::config::{ClientConfig, API_BASE, UNSET_API_KEY};
use auto_commit::request::{
    build_request, FunctionCall, FunctionDeclaration, Message, RequestSpec, Role, COMMIT,
    COMMIT_DESCRIPTION, GET_DIFF, GET_DIFF_DESCRIPTION, MAX_TOKENS, MODEL, NO_ARGUMENTS,
    NO_PARAMETERS, SYSTEM_PROMPT, TEMPERATURE_HUNDREDTHS,
};

const SCHEMA: &str = "{\"type\":\"object\",\"required\":[\"description\",\"title\"]}";

fn declares(request: &RequestSpec, name: &str) -> bool {
    request.functions.iter().any(|f| f.name == name)
}

#[test]
fn request_is_the_fixed_conversation_around_the_diff() {
    let request = build_request("+print('hi')", SCHEMA);
    let expected = RequestSpec {
        model: "gpt-3.5-turbo-16k".to_string(),
        messages: vec![
            Message {
                role: Role::System,
                content: Some(SYSTEM_PROMPT.to_string()),
                name: None,
                function_call: None,
            },
            Message {
                role: Role::Assistant,
                content: Some(String::new()),
                name: None,
                function_call: Some(FunctionCall {
                    name: "get_diff".to_string(),
                    arguments: "{}".to_string(),
                }),
            },
            Message {
                role: Role::Function,
                content: Some("+print('hi')".to_string()),
                name: Some("get_diff".to_string()),
                function_call: None,
            },
        ],
        functions: vec![
            FunctionDeclaration {
                name: "get_diff".to_string(),
                description: GET_DIFF_DESCRIPTION.to_string(),
                parameters: "{\"type\":\"object\",\"properties\":{}}".to_string(),
            },
            FunctionDeclaration {
                name: "commit".to_string(),
                description: COMMIT_DESCRIPTION.to_string(),
                parameters: SCHEMA.to_string(),
            },
        ],
        forced_function: "commit".to_string(),
        temperature_hundredths: 10,
        max_tokens: 2000,
    };
    assert_eq!(request, expected);
}

#[test]
fn request_constants() {
    assert_eq!(MODEL, "gpt-3.5-turbo-16k");
    assert_eq!(TEMPERATURE_HUNDREDTHS, 10);
    assert_eq!(MAX_TOKENS, 2000);
    assert_eq!(GET_DIFF, "get_diff");
    assert_eq!(COMMIT, "commit");
    assert_eq!(NO_ARGUMENTS, "{}");
    assert_eq!(NO_PARAMETERS, "{\"type\":\"object\",\"properties\":{}}");
}

#[test]
fn temperature_is_one_tenth() {
    let request = build_request("", SCHEMA);
    assert_eq!(request.temperature_hundredths as f32 / 100.0, 0.1f32);
}

#[test]
fn request_carries_the_diff_as_it_is() {
    for diff in ["", "diff --git a/x b/x\n+你好\n", "{\"title\":1}", "\n\n"] {
        let request = build_request(diff, SCHEMA);
        assert_eq!(request.messages.len(), 3);
        assert_eq!(request.messages[2].content.as_deref(), Some(diff));
        assert_eq!(request.messages[2].role, Role::Function);
    }
}

#[test]
fn request_carries_the_schema_as_it_is() {
    for schema in ["", "{}", SCHEMA] {
        let request = build_request("d", schema);
        assert_eq!(request.functions.len(), 2);
        assert_eq!(request.functions[1].parameters, schema);
        assert_eq!(request.functions[0].parameters, NO_PARAMETERS);
    }
}

#[test]
fn request_hangs_together() {
    let request = build_request("d", SCHEMA);
    assert!(declares(&request, &request.forced_function));
    for message in &request.messages {
        if let Some(call) = &message.function_call {
            assert!(declares(&request, &call.name));
        }
        if message.role == Role::Function {
            assert!(message.content.is_some());
            assert!(declares(&request, message.name.as_ref().unwrap()));
        }
    }
}

#[test]
fn configured_key_is_used() {
    let config = ClientConfig::new(Some("sk-abc".to_string()));
    assert_eq!(config.api_key, "sk-abc");
    assert_eq!(config.api_base, "https://ai.fakeopen.com");
    assert_eq!(ClientConfig::new(Some(String::new())).api_key, "");
}

#[test]
fn missing_key_is_replaced_by_the_placeholder() {
    let config = ClientConfig::new(None);
    assert_eq!(config.api_key, "sk-NOT-SET");
    assert_eq!(config.api_key, UNSET_API_KEY);
    assert_eq!(config.api_base, API_BASE);
}
