use chat_gateway::client::Client;
use chat_gateway::config::{ConfigFile, GeminiConfig};
use chat_gateway::error::GeminiError;
use chat_gateway::json::{Json, Member};
use chat_gateway::model::{
    AssistantResponseMessage, AuthProfile, ChatMessage, ChatResponseStream, ConversationState,
    Tool, ToolInputSchema, ToolResult, ToolResultContentBlock, ToolResultStatus,
    ToolSpecification, ToolUse, UserInputMessage, UserInputMessageContext,
};
use chat_gateway::streaming_client::{
    classify, classify_codewhisperer_error, collect_history, enterprise_error, events_of_part,
    gemini_request, qdeveloper_error, response_events, reversed, select_backend, ApiClientError, Backend, Failure,
    Outgoing, SendMessageOutput, StreamingClient,
};
use chat_gateway::types::{
    GeminiCandidate, GeminiContent, GeminiFunctionCall, GeminiFunctionResponse, GeminiPart,
    GeminiResponse, Single,
};

fn text(s: &str) -> Json {
    Json::String(s.to_string())
}

fn object(members: Vec<(&str, Json)>) -> Json {
    Json::Object(
        members
            .into_iter()
            .map(|(key, value)| Member { key: key.to_string(), value })
            .collect(),
    )
}

fn said(content: &str) -> ChatResponseStream {
    ChatResponseStream::AssistantResponseEvent { content: content.to_owned() }
}

fn user(content: &str) -> UserInputMessage {
    UserInputMessage { content: content.into(), user_input_message_context: None }
}

fn conversation(content: &str) -> ConversationState {
    ConversationState { conversation_id: None, user_input_message: user(content), history: None }
}

fn drain(output: &mut SendMessageOutput) -> Vec<ChatResponseStream> {
    let mut events = Vec::new();
    while let Some(event) = output.recv().unwrap() {
        events.push(event);
    }
    events
}

fn answered(outgoing: Outgoing) -> SendMessageOutput {
    match outgoing {
        Outgoing::Answered(output) => output,
        other => panic!("Expected an answer, got {:?}", other),
    }
}

fn config(temperature: f32) -> GeminiConfig {
    GeminiConfig {
        api_key: "key".to_string(),
        model: "gemini-2.0-flash".to_string(),
        temperature: Single::from_bits(temperature.to_bits()),
    }
}

#[test]
fn test_mock() {
    let mut client = StreamingClient::mock(vec![vec![
        said("Hello!"),
        said(" How can I"),
        said(" assist you today?"),
    ]]);
    let mut output = answered(client.send_message(conversation("Hello")));

    let mut output_content = String::new();
    while let Some(ChatResponseStream::AssistantResponseEvent { content }) = output.recv().unwrap()
    {
        output_content.push_str(&content);
    }
    assert_eq!(output_content, "Hello! How can I assist you today?");
}

#[test]
fn create_clients() {
    let first = StreamingClient::new(None, false, None, None).unwrap();
    assert_eq!(first.which(), Backend::Codewhisperer);
    let first = StreamingClient::new_codewhisperer_client(None);
    assert_eq!(first.which(), Backend::Codewhisperer);
    let second = StreamingClient::new_qdeveloper_client();
    assert_eq!(second.which(), Backend::QDeveloper);
}

#[test]
fn mock_replays_batches_in_order_and_then_nothing() {
    let first = vec![said("a"), said("b")];
    let second: Vec<ChatResponseStream> = vec![];
    let third = vec![ChatResponseStream::ToolUseEvent {
        tool_use_id: "t".to_string(),
        name: "n".to_string(),
        input: Some("{}".to_string()),
        stop: Some(true),
    }];
    let mut client =
        StreamingClient::mock(vec![first.clone(), second.clone(), third.clone()]);
    assert_eq!(client.which(), Backend::Mock);
    assert!(client.gemini_client().is_none());

    let mut output = answered(client.send_message(conversation("1")));
    assert!(matches!(output, SendMessageOutput::Mock(_)));
    assert_eq!(output.request_id(), None);
    assert_eq!(drain(&mut output), first);
    assert_eq!(output.recv().unwrap(), None);

    assert_eq!(drain(&mut answered(client.send_message(conversation("2")))), second);
    assert_eq!(drain(&mut answered(client.send_message(conversation("3")))), third);
    assert_eq!(drain(&mut answered(client.send_message(conversation("4")))), vec![]);
    assert_eq!(drain(&mut answered(client.send_message(conversation("5")))), vec![]);
}

#[test]
fn mock_without_batches_answers_with_nothing() {
    let mut client = StreamingClient::mock(vec![]);
    assert_eq!(drain(&mut answered(client.send_message(conversation("x")))), vec![]);
}

#[test]
fn reversed_turns_the_order_round() {
    assert_eq!(reversed(vec![1, 2, 3]), vec![3, 2, 1]);
    assert_eq!(reversed(Vec::<u8>::new()), Vec::<u8>::new());
    assert_eq!(reversed(vec!["x"]), vec!["x"]);
}

#[test]
fn backend_selection_follows_the_precedence() {
    assert_eq!(select_backend(true, true, Some("1")), Backend::Gemini);
    assert_eq!(select_backend(true, false, None), Backend::Gemini);
    assert_eq!(select_backend(false, true, None), Backend::QDeveloper);
    assert_eq!(select_backend(false, false, Some("1")), Backend::QDeveloper);
    assert_eq!(select_backend(false, false, Some("0")), Backend::QDeveloper);
    assert_eq!(select_backend(false, false, Some("")), Backend::Codewhisperer);
    assert_eq!(select_backend(false, false, None), Backend::Codewhisperer);
}

#[test]
fn new_selects_and_keeps_the_profile_for_the_first_backend_only() {
    let profile =
        AuthProfile { arn: "arn:aws:profile".to_string(), profile_name: "p".to_string() };

    let mut first = StreamingClient::new(None, false, Some(""), Some(profile.clone())).unwrap();
    assert_eq!(first.which(), Backend::Codewhisperer);
    match first.send_message(conversation("hi")) {
        Outgoing::Codewhisperer { conversation: sent, profile_arn } => {
            assert_eq!(sent, conversation("hi"));
            assert_eq!(profile_arn, Some("arn:aws:profile".to_string()));
        },
        other => panic!("Expected the first enterprise backend, got {:?}", other),
    }

    let mut second = StreamingClient::new(None, true, None, Some(profile.clone())).unwrap();
    assert_eq!(second.which(), Backend::QDeveloper);
    match second.send_message(conversation("hi")) {
        Outgoing::QDeveloper { conversation: sent } => assert_eq!(sent, conversation("hi")),
        other => panic!("Expected the second enterprise backend, got {:?}", other),
    }

    let third =
        StreamingClient::new(Some(ConfigFile::Parsed(config(0.25))), true, Some("1"), Some(profile))
            .unwrap();
    assert_eq!(third.which(), Backend::Gemini);
    assert_eq!(third.gemini_client().unwrap().temperature(), Single::from_bits(0.25f32.to_bits()));
}

#[test]
fn new_fails_on_a_configuration_that_cannot_be_loaded() {
    let cases = vec![
        (
            ConfigFile::Missing { path: "\"/home/u/.aws/amazonq/gemini_config.json\"".to_string() },
            "Failed to load Gemini configuration: Configuration error: Gemini configuration file not found at \"/home/u/.aws/amazonq/gemini_config.json\"",
        ),
        (
            ConfigFile::Unreadable { cause: "permission denied".to_string() },
            "Failed to load Gemini configuration: Configuration error: Failed to read Gemini configuration file: permission denied",
        ),
        (
            ConfigFile::Malformed { cause: "expected value at line 1 column 1".to_string() },
            "Failed to load Gemini configuration: Configuration error: Invalid Gemini configuration format: expected value at line 1 column 1",
        ),
        (
            ConfigFile::Parsed(GeminiConfig { api_key: String::new(), ..config(0.5) }),
            "Failed to load Gemini configuration: Configuration error: Gemini API key is missing in configuration",
        ),
    ];
    for (found, expected) in cases {
        match StreamingClient::new(Some(found), false, None, None) {
            Err(ApiClientError::ModelConfigurationError(text)) => assert_eq!(text, expected),
            other => panic!("Expected a configuration error, got {:?}", other),
        }
    }
    assert!(StreamingClient::new_gemini_client(ConfigFile::Parsed(config(1.5))).is_err());
    assert!(StreamingClient::new_gemini_client(ConfigFile::Parsed(config(1.0))).is_ok());
}

fn tool_conversation() -> ConversationState {
    ConversationState {
        conversation_id: Some("c-1".to_string()),
        user_input_message: UserInputMessage {
            content: "Tell me more about my file.".to_string(),
            user_input_message_context: Some(UserInputMessageContext {
                tool_results: None,
                tools: Some(vec![
                    Tool::ToolSpecification(ToolSpecification {
                        name: "fs_read".to_string(),
                        description: "Read a file".to_string(),
                        input_schema: ToolInputSchema {
                            json: Some(object(vec![
                                ("additionalProperties", Json::Bool(false)),
                                (
                                    "properties",
                                    object(vec![(
                                        "path",
                                        object(vec![(
                                            "type",
                                            Json::Array(vec![text("string"), text("null")]),
                                        )]),
                                    )]),
                                ),
                                ("required", Json::Array(vec![text("path")])),
                            ])),
                        },
                    }),
                    Tool::ToolSpecification(ToolSpecification {
                        name: "bare".to_string(),
                        description: "".to_string(),
                        input_schema: ToolInputSchema { json: None },
                    }),
                ]),
            }),
        },
        history: Some(vec![
            ChatMessage::UserInputMessage(user("Can you read my file?")),
            ChatMessage::AssistantResponseMessage(AssistantResponseMessage {
                message_id: None,
                content: "I'll help you read that file.".to_string(),
                tool_uses: Some(vec![ToolUse {
                    tool_use_id: "tool-123".to_string(),
                    name: "fs_read".to_string(),
                    input: object(vec![("path", text("test.txt"))]),
                }]),
            }),
            ChatMessage::UserInputMessage(UserInputMessage {
                content: "".to_string(),
                user_input_message_context: Some(UserInputMessageContext {
                    tool_results: Some(vec![
                        ToolResult {
                            tool_use_id: "tool-123".to_string(),
                            content: vec![
                                ToolResultContentBlock::Text("This is the file content.".into()),
                                ToolResultContentBlock::Text("ignored".into()),
                            ],
                            status: ToolResultStatus::Success,
                        },
                        ToolResult {
                            tool_use_id: "tool-124".to_string(),
                            content: vec![ToolResultContentBlock::Json(object(vec![(
                                "code",
                                Json::Number(serde_json::Number::from(2u64)),
                            )]))],
                            status: ToolResultStatus::Error,
                        },
                        ToolResult {
                            tool_use_id: "tool-125".to_string(),
                            content: vec![],
                            status: ToolResultStatus::Success,
                        },
                    ]),
                    tools: None,
                }),
            }),
        ]),
    }
}

#[test]
fn rest_request_of_a_conversation_with_tools() {
    let request = gemini_request(&tool_conversation(), Single::from_bits(0.7f32.to_bits()));

    let roles: Vec<Option<&str>> =
        request.contents.iter().map(|entry| entry.role.as_deref()).collect();
    assert_eq!(
        roles,
        vec![Some("user"), Some("model"), Some("model"), Some("user"), Some("user"), Some("user"), Some("user")]
    );
    assert_eq!(
        request.contents[2].parts,
        vec![GeminiPart::FunctionCall {
            function_call: GeminiFunctionCall {
                name: "fs_read".to_string(),
                args: object(vec![("path", text("test.txt"))]),
            },
        }]
    );
    assert_eq!(
        request.contents[3].parts,
        vec![GeminiPart::FunctionResponse {
            function_response: GeminiFunctionResponse {
                name: "fs_read".to_string(),
                response: object(vec![("result", text("This is the file content."))]),
            },
        }]
    );
    assert_eq!(
        request.contents[4].parts,
        vec![GeminiPart::FunctionResponse {
            function_response: GeminiFunctionResponse {
                name: "tool-124".to_string(),
                response: object(vec![(
                    "error",
                    object(vec![("code", Json::Number(serde_json::Number::from(2u64)))]),
                )]),
            },
        }]
    );
    assert_eq!(
        request.contents[5].parts,
        vec![GeminiPart::FunctionResponse {
            function_response: GeminiFunctionResponse {
                name: "tool-125".to_string(),
                response: object(vec![("result", Json::Null)]),
            },
        }]
    );
    assert_eq!(
        request.contents[6].parts,
        vec![GeminiPart::Text { text: "Tell me more about my file.".to_string() }]
    );

    let sets = request.tools.unwrap();
    assert_eq!(sets.len(), 1);
    let declarations = &sets[0].function_declarations;
    assert_eq!(declarations.len(), 2);
    assert_eq!(declarations[0].name, "fs_read");
    assert_eq!(
        declarations[0].parameters,
        object(vec![
            ("type", text("object")),
            ("properties", object(vec![("path", object(vec![("type", text("string"))]))])),
            ("required", Json::Array(vec![text("path")])),
        ])
    );
    assert_eq!(
        declarations[1].parameters,
        object(vec![
            ("type", text("object")),
            ("properties", object(vec![])),
            ("required", Json::Array(vec![])),
        ])
    );
    let generation = request.generation_config.unwrap();
    assert_eq!(generation.temperature, Some(Single::from_bits(0.7f32.to_bits())));
    assert_eq!(generation.max_output_tokens, Some(4096));
}

#[test]
fn gateway_to_the_rest_backend_builds_the_request() {
    let mut client = StreamingClient::new_gemini_client(ConfigFile::Parsed(config(0.7))).unwrap();
    let state = ConversationState {
        conversation_id: None,
        user_input_message: user("Hello, how are you?"),
        history: Some(vec![
            ChatMessage::UserInputMessage(user("Hi there")),
            ChatMessage::AssistantResponseMessage(AssistantResponseMessage {
                message_id: None,
                content: "Hello! How can I help you?".to_string(),
                tool_uses: None,
            }),
        ]),
    };
    match client.send_message(state) {
        Outgoing::Gemini(request) => {
            assert_eq!(request.contents.len(), 3);
            assert_eq!(request.contents[0].role, Some("user".to_string()));
            assert_eq!(request.contents[1].role, Some("model".to_string()));
            assert_eq!(request.contents[2].role, Some("user".to_string()));
            assert!(request.tools.is_none());
        },
        other => panic!("Expected a request to the REST backend, got {:?}", other),
    }
    assert_eq!(client.which(), Backend::Gemini);
}

fn response(parts: Vec<GeminiPart>) -> GeminiResponse {
    GeminiResponse {
        candidates: vec![GeminiCandidate {
            content: GeminiContent { role: Some("model".to_string()), parts },
            finish_reason: Some("STOP".to_string()),
        }],
    }
}

#[test]
fn text_and_function_call_give_three_events() {
    let answer = response(vec![
        GeminiPart::Text { text: "Let me look.".to_string() },
        GeminiPart::FunctionCall {
            function_call: GeminiFunctionCall {
                name: "fs_read".to_string(),
                args: object(vec![("path", text("test.txt"))]),
            },
        },
        GeminiPart::FunctionResponse {
            function_response: GeminiFunctionResponse {
                name: "fs_read".to_string(),
                response: Json::Null,
            },
        },
    ]);
    let events = response_events(&answer);
    assert_eq!(events.len(), 3);
    assert_eq!(events[0], said("Let me look."));
    let id = match &events[1] {
        ChatResponseStream::ToolUseEvent { tool_use_id, name, input, stop } => {
            assert_eq!(name, "fs_read");
            assert_eq!(*input, None);
            assert_eq!(*stop, None);
            assert!(tool_use_id.starts_with("tool-"));
            assert!(tool_use_id["tool-".len()..].chars().all(|c| c.is_ascii_digit()));
            tool_use_id.clone()
        },
        other => panic!("Expected a tool use event, got {:?}", other),
    };
    assert_eq!(
        events[2],
        ChatResponseStream::ToolUseEvent {
            tool_use_id: id,
            name: "fs_read".to_string(),
            input: Some("{\"path\":\"test.txt\"}".to_string()),
            stop: Some(true),
        }
    );

    let mut output = StreamingClient::gemini_output(Ok(answer)).unwrap();
    assert!(matches!(output, SendMessageOutput::Gemini(_)));
    assert_eq!(output.request_id(), None);
    let drained = drain(&mut output);
    assert_eq!(drained.len(), 3);
    assert_eq!(drained[0], said("Let me look."));
    assert!(matches!(&drained[1], ChatResponseStream::ToolUseEvent { input: None, stop: None, .. }));
    assert!(matches!(
        &drained[2],
        ChatResponseStream::ToolUseEvent { input: Some(_), stop: Some(true), .. }
    ));
    assert_eq!(output.recv().unwrap(), None);
}

#[test]
fn only_the_first_candidate_is_read() {
    let mut answer = response(vec![GeminiPart::Text { text: "first".to_string() }]);
    answer.candidates.push(GeminiCandidate {
        content: GeminiContent {
            role: None,
            parts: vec![GeminiPart::Text { text: "second".to_string() }],
        },
        finish_reason: None,
    });
    assert_eq!(response_events(&answer), vec![said("first")]);
    assert_eq!(response_events(&GeminiResponse { candidates: vec![] }), vec![]);
}

#[test]
fn function_call_input_is_written_as_json() {
    let call = |args: Json| GeminiPart::FunctionCall {
        function_call: GeminiFunctionCall { name: "f".to_string(), args },
    };
    let input_of = |part: &GeminiPart| match &events_of_part(part, "tool-1")[1] {
        ChatResponseStream::ToolUseEvent { input, .. } => input.clone().unwrap(),
        other => panic!("Expected a tool use event, got {:?}", other),
    };
    assert_eq!(input_of(&call(Json::Null)), "null");
    assert_eq!(input_of(&call(object(vec![]))), "{}");
    assert_eq!(input_of(&call(text("a\"b"))), "\"a\\\"b\"");
    assert_eq!(
        input_of(&call(Json::Array(vec![
            Json::Bool(true),
            Json::Number(serde_json::Number::from(-7i64)),
            Json::Number(serde_json::Number::from_f64(1.5).unwrap()),
        ]))),
        "[true,-7,1.5]"
    );
    // Entries are written sorted by key, a later entry under a key standing
    // for an earlier one.
    assert_eq!(
        input_of(&call(object(vec![
            ("b", Json::Number(serde_json::Number::from(1u64))),
            ("a", object(vec![("z", Json::Null)])),
            ("b", Json::Number(serde_json::Number::from(2u64))),
        ]))),
        "{\"a\":{\"z\":null},\"b\":2}"
    );
    assert_eq!(events_of_part(&GeminiPart::Text { text: "t".to_string() }, "x"), vec![said("t")]);
    assert_eq!(
        events_of_part(
            &GeminiPart::FunctionResponse {
                function_response: GeminiFunctionResponse {
                    name: "f".to_string(),
                    response: Json::Null
                }
            },
            "x"
        ),
        vec![]
    );
}

#[test]
fn failed_exchange_is_a_runtime_error() {
    match StreamingClient::gemini_output(Err(GeminiError::ApiError("boom".to_string()))) {
        Err(ApiClientError::ModelRuntimeError(text)) => {
            assert_eq!(text, "Gemini API request failed: API error: boom");
        },
        other => panic!("Expected a runtime error, got {:?}", other),
    }
}

#[test]
fn status_429_is_a_quota_breach() {
    assert_eq!(classify(Some(429), None, None), Failure::QuotaBreach);
    assert_eq!(
        classify(Some(429), Some("ValidationException"), Some("Input is too long.")),
        Failure::QuotaBreach
    );
    assert_eq!(
        classify(Some(400), Some("ValidationException"), Some("Input is too long.")),
        Failure::ContextWindowOverflow
    );
    assert_eq!(
        classify(None, Some("ValidationException"), Some("Input is too long.")),
        Failure::ContextWindowOverflow
    );
    assert_eq!(
        classify(Some(400), Some("ValidationException"), Some("Input is too long")),
        Failure::Other
    );
    assert_eq!(classify(Some(400), Some("validationexception"), Some("Input is too long.")), Failure::Other);
    assert_eq!(classify(Some(400), None, Some("Input is too long.")), Failure::Other);
    assert_eq!(classify(Some(400), Some("ValidationException"), None), Failure::Other);
    assert_eq!(classify(Some(500), None, None), Failure::Other);
    assert_eq!(classify(None, None, None), Failure::Other);
}

#[test]
fn service_errors_are_classified_from_their_metadata() {
    let too_long = aws_smithy_types::error::ErrorMetadata::builder()
        .code("ValidationException")
        .message("Input is too long.")
        .build();
    let throttled = aws_smithy_types::error::ErrorMetadata::builder()
        .code("ThrottlingException")
        .message("Slow down")
        .build();

    match classify_codewhisperer_error(Some(429), Some(&too_long)) {
        ApiClientError::QuotaBreach(text) => assert_eq!(text, "quota has reached its limit"),
        other => panic!("Expected a quota breach, got {:?}", other),
    }
    assert!(matches!(classify_codewhisperer_error(Some(429), None), ApiClientError::QuotaBreach(_)));
    assert!(matches!(
        classify_codewhisperer_error(Some(400), Some(&too_long)),
        ApiClientError::ContextWindowOverflow
    ));
    match classify_codewhisperer_error(Some(400), Some(&throttled)) {
        ApiClientError::Service { backend, status, code, message } => {
            assert_eq!(backend, Backend::Codewhisperer);
            assert_eq!(status, Some(400));
            assert_eq!(code.as_deref(), Some("ThrottlingException"));
            assert_eq!(message.as_deref(), Some("Slow down"));
        },
        other => panic!("Expected a service error, got {:?}", other),
    }
    match classify_codewhisperer_error(None, None) {
        ApiClientError::Service { backend, status, code, message } => {
            assert_eq!(backend, Backend::Codewhisperer);
            assert_eq!(status, None);
            assert_eq!(code, None);
            assert_eq!(message, None);
        },
        other => panic!("Expected a service error, got {:?}", other),
    }
}

#[test]
fn second_enterprise_backend_is_classified_like_the_first() {
    match qdeveloper_error(Some(429), Some("ValidationException"), Some("Input is too long.")) {
        ApiClientError::QuotaBreach(text) => assert_eq!(text, "quota has reached its limit"),
        other => panic!("Expected a quota breach, got {:?}", other),
    }
    assert!(matches!(qdeveloper_error(Some(429), None, None), ApiClientError::QuotaBreach(_)));
    assert!(matches!(
        qdeveloper_error(Some(400), Some("ValidationException"), Some("Input is too long.")),
        ApiClientError::ContextWindowOverflow
    ));
    match qdeveloper_error(Some(503), Some("ServiceUnavailable"), Some("Try later")) {
        ApiClientError::Service { backend, status, code, message } => {
            assert_eq!(backend, Backend::QDeveloper);
            assert_eq!(status, Some(503));
            assert_eq!(code.as_deref(), Some("ServiceUnavailable"));
            assert_eq!(message.as_deref(), Some("Try later"));
        },
        other => panic!("Expected a service error, got {:?}", other),
    }
    match enterprise_error(Backend::QDeveloper, None, None, None) {
        ApiClientError::Service { backend, status, code, message } => {
            assert_eq!(backend, Backend::QDeveloper);
            assert_eq!(status, None);
            assert_eq!(code, None);
            assert_eq!(message, None);
        },
        other => panic!("Expected a service error, got {:?}", other),
    }
    assert!(matches!(
        enterprise_error(Backend::Codewhisperer, Some(429), None, None),
        ApiClientError::QuotaBreach(_)
    ));
}

#[test]
fn schema_of_a_tool_is_reduced_once() {
    let mut state = conversation("hi");
    state.user_input_message.user_input_message_context = Some(UserInputMessageContext {
        tool_results: None,
        tools: Some(vec![Tool::ToolSpecification(ToolSpecification {
            name: "odd".to_string(),
            description: "".to_string(),
            input_schema: ToolInputSchema {
                json: Some(object(vec![(
                    "properties",
                    object(vec![("p", object(vec![("type", Json::Array(vec![]))]))]),
                )])),
            },
        })]),
    });
    let request = gemini_request(&state, Single::from_bits(0.5f32.to_bits()));
    let sets = request.tools.unwrap();
    assert_eq!(
        sets[0].function_declarations[0].parameters,
        object(vec![
            ("type", text("object")),
            ("properties", object(vec![("p", object(vec![]))])),
            ("required", Json::Array(vec![])),
        ])
    );
}

#[test]
fn history_is_collected_whole_or_not_at_all() {
    let all: Vec<Result<u8, &str>> = vec![Ok(1), Ok(2), Ok(3)];
    assert_eq!(collect_history(all), Ok(vec![1, 2, 3]));
    let none: Vec<Result<u8, &str>> = vec![];
    assert_eq!(collect_history(none), Ok(vec![]));
    let one: Vec<Result<u8, &str>> = vec![Ok(1), Err("second"), Ok(3)];
    assert_eq!(collect_history(one), Err("second"));
    let two: Vec<Result<u8, &str>> = vec![Ok(1), Err("second"), Err("third")];
    assert_eq!(collect_history(two), Err("second"));
    let first: Vec<Result<u8, &str>> = vec![Err("first")];
    assert_eq!(collect_history(first), Err("first"));
}

#[test]
fn client_of_the_gateway_keeps_the_configuration() {
    let client = Client::new(config(0.5));
    assert_eq!(client.temperature(), Single::from_bits(0.5f32.to_bits()));
}
