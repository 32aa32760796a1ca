use chat_gateway::conversion::{
    add_function_response_to_conversation, conversation_state_to_gemini_request,
    generate_tool_use_id, split_text_into_chunks, tool_result_to_gemini_function_response,
    tool_use_id_for, MockChatMessage, MockTool, MockToolResult, MockToolUse,
};
use chat_gateway::json::{Json, Member};
use chat_gateway::types::{GeminiFunctionCall, GeminiFunctionResponse, GeminiPart, Single};

fn text(s: &str) -> Json {
    Json::String(s.to_string())
}

fn object(members: Vec<(&str, Json)>) -> Json {
    Json::Object(
        members
            .into_iter()
            .map(|(key, value)| Member { key: key.to_string(), value })
            .collect(),
    )
}

fn param_schema() -> Json {
    object(vec![
        ("type", text("object")),
        (
            "properties",
            object(vec![(
                "param1",
                object(vec![("type", text("string")), ("description", text("A parameter"))]),
            )]),
        ),
    ])
}

fn test_tool() -> MockTool {
    MockTool {
        name: "test_tool".to_string(),
        description: "A test tool".to_string(),
        parameters: param_schema(),
    }
}

fn temperature() -> Single {
    Single::from_bits(0.7f32.to_bits())
}

#[test]
fn test_conversation_state_to_gemini_request() {
    let user_message = "Hello, how are you?";
    let history = vec![
        MockChatMessage::UserMessage { content: "Hi there".to_string(), tool_results: None },
        MockChatMessage::AssistantMessage {
            content: "Hello! How can I help you?".to_string(),
            tool_uses: None,
        },
    ];
    let tools = vec![test_tool()];

    let request = conversation_state_to_gemini_request(
        &MockChatMessage::UserMessage { content: user_message.to_string(), tool_results: None },
        &history,
        Some(&tools),
        temperature(),
    );

    assert_eq!(request.contents.len(), 3);
    assert_eq!(request.contents[0].role, Some("user".to_string()));
    assert_eq!(request.contents[1].role, Some("model".to_string()));
    assert_eq!(request.contents[2].role, Some("user".to_string()));

    assert!(request.tools.is_some());
    let tools = request.tools.unwrap();
    assert_eq!(tools.len(), 1);
    assert_eq!(tools[0].function_declarations.len(), 1);
    assert_eq!(tools[0].function_declarations[0].name, "test_tool");

    assert!(request.generation_config.is_some());
    let config = request.generation_config.unwrap();
    assert_eq!(config.temperature, Some(Single::from_bits(0.7f32.to_bits())));
    assert_eq!(config.max_output_tokens, Some(4096));
    assert_eq!(config.top_k, None);
    assert_eq!(config.top_p, None);
}

#[test]
fn test_conversation_with_tool_uses() {
    let user_message = "Tell me more about my file.";
    let history = vec![
        MockChatMessage::UserMessage {
            content: "Can you read my file?".to_string(),
            tool_results: None,
        },
        MockChatMessage::AssistantMessage {
            content: "I'll help you read that file.".to_string(),
            tool_uses: Some(vec![MockToolUse {
                name: "fs_read".to_string(),
                args: object(vec![("path", text("test.txt"))]),
                tool_use_id: "tool-123".to_string(),
            }]),
        },
        MockChatMessage::UserMessage {
            content: "".to_string(),
            tool_results: Some(vec![MockToolResult {
                tool_use_id: "tool-123".to_string(),
                content: text("This is the file content."),
                status: "success".to_string(),
            }]),
        },
        MockChatMessage::AssistantMessage {
            content: "Your file says: This is the file content.".to_string(),
            tool_uses: None,
        },
    ];
    let tools = vec![test_tool()];

    let request = conversation_state_to_gemini_request(
        &MockChatMessage::UserMessage { content: user_message.to_string(), tool_results: None },
        &history,
        Some(&tools),
        temperature(),
    );

    assert_eq!(request.contents.len(), 6);

    match &request.contents[2].parts[0] {
        GeminiPart::FunctionCall { function_call } => {
            assert_eq!(function_call.name, "fs_read");
            assert_eq!(function_call.args, object(vec![("path", text("test.txt"))]));
        },
        _ => panic!("Expected function call part"),
    }

    match &request.contents[3].parts[0] {
        GeminiPart::FunctionResponse { function_response } => {
            assert_eq!(function_response.name, "fs_read");
            assert_eq!(
                function_response.response,
                object(vec![("result", text("This is the file content."))])
            );
        },
        _ => panic!("Expected function response part"),
    }
}

#[test]
fn test_tool_id_to_name_mapping() {
    let user_message = "What's next?";
    let history = vec![
        MockChatMessage::AssistantMessage {
            content: "Let me check that file for you.".to_string(),
            tool_uses: Some(vec![MockToolUse {
                name: "fs_read".to_string(),
                args: object(vec![("path", text("test.txt"))]),
                tool_use_id: "tool-123".to_string(),
            }]),
        },
        MockChatMessage::UserMessage {
            content: "".to_string(),
            tool_results: Some(vec![MockToolResult {
                tool_use_id: "tool-123".to_string(),
                content: text("File content"),
                status: "success".to_string(),
            }]),
        },
        MockChatMessage::AssistantMessage {
            content: "Now let me check another file.".to_string(),
            tool_uses: Some(vec![MockToolUse {
                name: "fs_read".to_string(),
                args: object(vec![("path", text("another.txt"))]),
                tool_use_id: "tool-456".to_string(),
            }]),
        },
        MockChatMessage::UserMessage {
            content: "".to_string(),
            tool_results: Some(vec![MockToolResult {
                tool_use_id: "tool-456".to_string(),
                content: text("Another file content"),
                status: "success".to_string(),
            }]),
        },
    ];

    let request = conversation_state_to_gemini_request(
        &MockChatMessage::UserMessage { content: user_message.to_string(), tool_results: None },
        &history,
        None,
        temperature(),
    );

    assert_eq!(request.contents.len(), 7);
    assert!(request.tools.is_none());

    match &request.contents[2].parts[0] {
        GeminiPart::FunctionResponse { function_response } => {
            assert_eq!(function_response.name, "fs_read");
            assert_eq!(function_response.response, object(vec![("result", text("File content"))]));
        },
        _ => panic!("Expected function response part"),
    }

    match &request.contents[5].parts[0] {
        GeminiPart::FunctionResponse { function_response } => {
            assert_eq!(function_response.name, "fs_read");
            assert_eq!(
                function_response.response,
                object(vec![("result", text("Another file content"))])
            );
        },
        _ => panic!("Expected function response part"),
    }
}

#[test]
fn test_tool_result_to_gemini_function_response() {
    let success_result =
        tool_result_to_gemini_function_response("tool-123", &text("File content"), "success");

    assert_eq!(success_result.name, "tool-123");
    assert_eq!(success_result.response, object(vec![("result", text("File content"))]));

    let error_result =
        tool_result_to_gemini_function_response("tool-456", &text("File not found"), "error");

    assert_eq!(error_result.name, "tool-456");
    assert_eq!(error_result.response, object(vec![("error", text("File not found"))]));
}

#[test]
fn test_add_function_response_to_conversation() {
    let mut conversation = Vec::new();

    let function_call = GeminiFunctionCall {
        name: "test_function".to_string(),
        args: object(vec![("param1", text("value1"))]),
    };

    let function_response = GeminiFunctionResponse {
        name: "test_function".to_string(),
        response: object(vec![("result", text("function result"))]),
    };

    add_function_response_to_conversation(&mut conversation, &function_call, &function_response);

    assert_eq!(conversation.len(), 2);
    assert_eq!(conversation[0].role, Some("model".to_string()));
    assert_eq!(conversation[1].role, Some("user".to_string()));

    match &conversation[0].parts[0] {
        GeminiPart::FunctionCall { function_call: fc } => {
            assert_eq!(fc.name, "test_function");
            assert_eq!(fc.args, object(vec![("param1", text("value1"))]));
        },
        _ => panic!("Expected function call part"),
    }

    match &conversation[1].parts[0] {
        GeminiPart::FunctionResponse { function_response: fr } => {
            assert_eq!(fr.name, "test_function");
            assert_eq!(fr.response, object(vec![("result", text("function result"))]));
        },
        _ => panic!("Expected function response part"),
    }
}

#[test]
fn test_split_text_into_chunks() {
    let text = "This is a test of the text splitting function.";
    let chunks = split_text_into_chunks(text, 10);

    assert_eq!(chunks.len(), 5);
    assert_eq!(chunks[0], "This is a ");
    assert_eq!(chunks[1], "test of th");
    assert_eq!(chunks[2], "e text spl");
    assert_eq!(chunks[3], "itting fun");
    assert_eq!(chunks[4], "ction.");
}

#[test]
fn split_of_empty_text_is_one_empty_chunk() {
    assert_eq!(split_text_into_chunks("", 10), vec![String::new()]);
    assert_eq!(split_text_into_chunks("", 0), vec![String::new()]);
}

#[test]
fn split_counts_characters_not_bytes() {
    assert_eq!(split_text_into_chunks("äöüß", 2), vec!["äö".to_string(), "üß".to_string()]);
}

#[test]
fn split_with_exact_multiple_has_no_empty_tail() {
    assert_eq!(split_text_into_chunks("abcdef", 3), vec!["abc".to_string(), "def".to_string()]);
    assert_eq!(split_text_into_chunks("abc", 3), vec!["abc".to_string()]);
    assert_eq!(split_text_into_chunks("abc", 100), vec!["abc".to_string()]);
}

#[test]
fn split_with_zero_size_gives_single_characters() {
    assert_eq!(
        split_text_into_chunks("abc", 0),
        vec!["a".to_string(), "b".to_string(), "c".to_string()]
    );
    assert_eq!(split_text_into_chunks("abc", 1), split_text_into_chunks("abc", 0));
}

#[test]
fn tool_use_id_is_prefix_and_decimal() {
    assert_eq!(tool_use_id_for(0), "tool-0");
    assert_eq!(tool_use_id_for(7), "tool-7");
    assert_eq!(tool_use_id_for(10), "tool-10");
    assert_eq!(tool_use_id_for(1_700_000_000_123), "tool-1700000000123");
    assert_eq!(tool_use_id_for(u128::MAX), format!("tool-{}", u128::MAX));
}

#[test]
fn generated_tool_use_id_has_the_form() {
    let id = generate_tool_use_id();
    assert!(id.starts_with("tool-"));
    let digits = &id["tool-".len()..];
    assert!(!digits.is_empty());
    assert!(digits.chars().all(|c| c.is_ascii_digit()));
    let millis: u128 = digits.parse().unwrap();
    assert_eq!(tool_use_id_for(millis), id);
    // The clock of a machine that runs this stands after the year 2001.
    assert!(millis > 1_000_000_000_000);
}

#[test]
fn result_without_earlier_call_is_named_by_its_id() {
    let history = vec![MockChatMessage::UserMessage {
        content: "".to_string(),
        tool_results: Some(vec![MockToolResult {
            tool_use_id: "tool-999".to_string(),
            content: text("orphan"),
            status: "success".to_string(),
        }]),
    }];
    let request = conversation_state_to_gemini_request(
        &MockChatMessage::UserMessage { content: "next".to_string(), tool_results: None },
        &history,
        None,
        temperature(),
    );
    assert_eq!(request.contents.len(), 2);
    match &request.contents[0].parts[0] {
        GeminiPart::FunctionResponse { function_response } => {
            assert_eq!(function_response.name, "tool-999");
        },
        _ => panic!("Expected function response part"),
    }
}

#[test]
fn result_before_its_call_is_named_by_its_id() {
    let history = vec![
        MockChatMessage::UserMessage {
            content: "".to_string(),
            tool_results: Some(vec![MockToolResult {
                tool_use_id: "tool-1".to_string(),
                content: text("early"),
                status: "error".to_string(),
            }]),
        },
        MockChatMessage::AssistantMessage {
            content: "".to_string(),
            tool_uses: Some(vec![MockToolUse {
                name: "fs_read".to_string(),
                args: Json::Null,
                tool_use_id: "tool-1".to_string(),
            }]),
        },
    ];
    let request = conversation_state_to_gemini_request(
        &MockChatMessage::UserMessage {
            content: "".to_string(),
            tool_results: Some(vec![MockToolResult {
                tool_use_id: "tool-1".to_string(),
                content: text("late"),
                status: "success".to_string(),
            }]),
        },
        &history,
        None,
        temperature(),
    );
    assert_eq!(request.contents.len(), 3);
    match &request.contents[0].parts[0] {
        GeminiPart::FunctionResponse { function_response } => {
            assert_eq!(function_response.name, "tool-1");
            assert_eq!(function_response.response, object(vec![("error", text("early"))]));
        },
        _ => panic!("Expected function response part"),
    }
    match &request.contents[2].parts[0] {
        GeminiPart::FunctionResponse { function_response } => {
            assert_eq!(function_response.name, "fs_read");
        },
        _ => panic!("Expected function response part"),
    }
}

#[test]
fn later_call_under_the_same_id_replaces_the_name() {
    let history = vec![MockChatMessage::AssistantMessage {
        content: "".to_string(),
        tool_uses: Some(vec![
            MockToolUse {
                name: "first".to_string(),
                args: Json::Null,
                tool_use_id: "same".to_string(),
            },
            MockToolUse {
                name: "second".to_string(),
                args: Json::Null,
                tool_use_id: "same".to_string(),
            },
        ]),
    }];
    let request = conversation_state_to_gemini_request(
        &MockChatMessage::UserMessage {
            content: "".to_string(),
            tool_results: Some(vec![MockToolResult {
                tool_use_id: "same".to_string(),
                content: Json::Null,
                status: "success".to_string(),
            }]),
        },
        &history,
        None,
        temperature(),
    );
    assert_eq!(request.contents.len(), 3);
    match &request.contents[2].parts[0] {
        GeminiPart::FunctionResponse { function_response } => {
            assert_eq!(function_response.name, "second");
        },
        _ => panic!("Expected function response part"),
    }
}

#[test]
fn empty_turns_give_no_text_entry() {
    let history = vec![
        MockChatMessage::UserMessage { content: "".to_string(), tool_results: None },
        MockChatMessage::AssistantMessage { content: "".to_string(), tool_uses: None },
        MockChatMessage::AssistantMessage { content: "x".to_string(), tool_uses: None },
    ];
    let request = conversation_state_to_gemini_request(
        &MockChatMessage::UserMessage { content: "".to_string(), tool_results: None },
        &history,
        None,
        temperature(),
    );
    assert_eq!(request.contents.len(), 1);
    assert_eq!(request.contents[0].role, Some("model".to_string()));
    assert_eq!(request.contents[0].parts, vec![GeminiPart::Text { text: "x".to_string() }]);
}

#[test]
fn any_status_but_success_is_an_error_payload() {
    let r = tool_result_to_gemini_function_response("t", &Json::Bool(true), "Success");
    assert_eq!(r.response, object(vec![("error", Json::Bool(true))]));
    let r = tool_result_to_gemini_function_response("t", &Json::Bool(true), "");
    assert_eq!(r.response, object(vec![("error", Json::Bool(true))]));
}

#[test]
fn tools_are_declared_in_one_set_with_reduced_schemas() {
    let tools = vec![
        test_tool(),
        MockTool { name: "bare".to_string(), description: "".to_string(), parameters: Json::Null },
    ];
    let request = conversation_state_to_gemini_request(
        &MockChatMessage::UserMessage { content: "hi".to_string(), tool_results: None },
        &[],
        Some(&tools),
        temperature(),
    );
    let sets = request.tools.unwrap();
    assert_eq!(sets.len(), 1);
    let declarations = &sets[0].function_declarations;
    assert_eq!(declarations.len(), 2);
    assert_eq!(declarations[0].description, "A test tool");
    assert_eq!(
        declarations[0].parameters,
        object(vec![
            ("type", text("object")),
            (
                "properties",
                object(vec![(
                    "param1",
                    object(vec![("type", text("string")), ("description", text("A parameter"))]),
                )]),
            ),
            ("required", Json::Array(vec![])),
        ])
    );
    assert_eq!(
        declarations[1].parameters,
        object(vec![
            ("type", text("object")),
            ("properties", object(vec![])),
            ("required", Json::Array(vec![])),
        ])
    );
}
