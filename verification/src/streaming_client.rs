//! The gateway: which backend serves a conversation, what is sent to it,
//! and how its answer becomes one ordered run of chat events.
//!
//! The gateway decides; it does not speak to the network. `send_message`
//! hands back what is to be sent, the caller sends it, and the answer comes
//! back through `gemini_output` or `classify_codewhisperer_error`.

use vstd::prelude::*;

use crate::client::Client;
use crate::codewhisperer::metadata::{error_code, error_message};
use crate::config::{load_config, load_fault, ConfigFile};
use crate::conversion::{
    conversation_entries, conversation_state_to_gemini_request, generate_tool_use_id,
    generation_config_for, messages_well_formed, tool_sets, tool_use_id_at, tools_well_formed,
    MessageView, MockChatMessage, MockTool,
    MockToolResult, MockToolUse, ToolResultView, ToolUseView, ToolView,
};
use crate::error::GeminiError;
use crate::json::{entries, json_text, write_json, Json, JsonValue, Member};
use crate::model::{
    AuthProfile, ChatMessage, ChatResponseStream, ConversationState, Tool, ToolResult,
    ToolResultContentBlock, ToolResultStatus, ToolUse, UserInputMessage,
};
use crate::text::{concat, same};
use crate::types::{GeminiPart, GeminiRequest, GeminiResponse, PartView, RequestView, Single};
use crate::views::{referent, text_of, view_of, views};

verus! {

/// What the quota error says.
pub const QUOTA_BREACH_MESSAGE: &'static str = "quota has reached its limit";

/// The error code of a request that is not valid.
pub const VALIDATION_ERROR_CODE: &'static str = "ValidationException";

/// The message of a validation error for input that does not fit the
/// context window. The backend gives no field for this; the text is all
/// there is to go by.
pub const INPUT_TOO_LONG_MESSAGE: &'static str = "Input is too long.";

/// The status of a request that is over quota.
pub const TOO_MANY_REQUESTS: u16 = 429;

/// The value of a [`ChatResponseStream`].
pub enum EventView {
    AssistantResponseEvent { content: Seq<char> },
    ToolUseEvent {
        tool_use_id: Seq<char>,
        name: Seq<char>,
        input: Option<Seq<char>>,
        stop: Option<bool>,
    },
}

impl View for ChatResponseStream {
    type V = EventView;

    open spec fn view(&self) -> EventView {
        match self {
            ChatResponseStream::AssistantResponseEvent { content } => {
                EventView::AssistantResponseEvent { content: content@ }
            },
            ChatResponseStream::ToolUseEvent {
                tool_use_id,
                name,
                input,
                stop,
            } => EventView::ToolUseEvent {
                tool_use_id: tool_use_id@,
                name: name@,
                input: match input {
                    Some(text) => Some(text@),
                    None => None,
                },
                stop: *stop,
            },
        }
    }
}

impl Clone for ChatResponseStream {
    fn clone(&self) -> (r: Self)
        ensures
            r@ == self@,
    {
        match self {
            ChatResponseStream::AssistantResponseEvent {
                content,
            } => ChatResponseStream::AssistantResponseEvent { content: content.clone() },
            ChatResponseStream::ToolUseEvent {
                tool_use_id,
                name,
                input,
                stop,
            } => ChatResponseStream::ToolUseEvent {
                tool_use_id: tool_use_id.clone(),
                name: name.clone(),
                input: match input {
                    Some(text) => Some(text.clone()),
                    None => None,
                },
                stop: *stop,
            },
        }
    }
}

/// The backends that can serve a conversation.
#[derive(Clone, Copy, Debug, PartialEq, Eq, Structural)]
pub enum Backend {
    Codewhisperer,
    QDeveloper,
    Gemini,
    Mock,
}

/// What went wrong in the gateway.
#[derive(Debug)]
pub enum ApiClientError {
    /// The enterprise backend answered that the quota is used up.
    QuotaBreach(String),
    /// The conversation does not fit the backend's context window.
    ContextWindowOverflow,
    /// A past turn could not be put into the backend's form.
    SmithyBuild(aws_smithy_types::error::operation::BuildError),
    /// The REST backend's configuration could not be loaded.
    ModelConfigurationError(String),
    /// The REST backend failed to answer.
    ModelRuntimeError(String),
    /// Any other failure of a backend, as the backend reported it.
    Service {
        backend: Backend,
        status: Option<u16>,
        code: Option<String>,
        message: Option<String>,
    },
}

/// What a failure of an enterprise backend is taken for.
#[derive(Clone, Copy, Debug, PartialEq, Eq, Structural)]
pub enum Failure {
    QuotaBreach,
    ContextWindowOverflow,
    Other,
}

/// What a failure of an enterprise backend is taken for, whichever of the
/// two it is: the status 429 is a breach of quota whatever else is
/// reported; a validation error with the message for too long an input is
/// an overflow of the context window; everything else passes through.
pub open spec fn failure_of(
    status: Option<u16>,
    code: Option<Seq<char>>,
    message: Option<Seq<char>>,
) -> Failure {
    if status == Some(TOO_MANY_REQUESTS) {
        Failure::QuotaBreach
    } else if code == Some(VALIDATION_ERROR_CODE@) && message == Some(INPUT_TOO_LONG_MESSAGE@) {
        Failure::ContextWindowOverflow
    } else {
        Failure::Other
    }
}

/// Whether `error` is the error for a failure of the enterprise backend
/// `backend` with the given status, code and message: the quota error with
/// its fixed message, the overflow error, or the service error that bears
/// the backend and what it reported.
pub open spec fn is_failure_of(
    error: ApiClientError,
    backend: Backend,
    status: Option<u16>,
    code: Option<Seq<char>>,
    message: Option<Seq<char>>,
) -> bool {
    match failure_of(status, code, message) {
        Failure::QuotaBreach => error matches ApiClientError::QuotaBreach(text) && text@
            == QUOTA_BREACH_MESSAGE@,
        Failure::ContextWindowOverflow => error is ContextWindowOverflow,
        Failure::Other => error matches ApiClientError::Service {
            backend: origin,
            status: reported,
            code: c,
            message: m,
        } && origin == backend && reported == status && view_of(c) == code && view_of(m)
            == message,
    }
}

/// Tells what a failure of an enterprise backend is: from the HTTP status
/// of the raw response, if there is one, and the code and message of the
/// service error, if there is one.
pub fn classify(status: Option<u16>, code: Option<&str>, message: Option<&str>) -> (r: Failure)
    ensures
        r == failure_of(status, text_of(code), text_of(message)),
        status == Some(TOO_MANY_REQUESTS) ==> r == Failure::QuotaBreach,
{
    if status == Some(TOO_MANY_REQUESTS) {
        return Failure::QuotaBreach;
    }
    let validation = match code {
        Some(code) => same(code, VALIDATION_ERROR_CODE),
        None => false,
    };
    let too_long = match message {
        Some(message) => same(message, INPUT_TOO_LONG_MESSAGE),
        None => false,
    };
    if validation && too_long {
        Failure::ContextWindowOverflow
    } else {
        Failure::Other
    }
}

/// A copy of an optional text slice.
fn owned(text: Option<&str>) -> (r: Option<String>)
    ensures
        view_of(r) == text_of(text),
{
    match text {
        Some(t) => Some(t.to_owned()),
        None => None,
    }
}

/// The error for a failure of an enterprise backend.
pub fn enterprise_error(
    backend: Backend,
    status: Option<u16>,
    code: Option<&str>,
    message: Option<&str>,
) -> (r: ApiClientError)
    ensures
        is_failure_of(r, backend, status, text_of(code), text_of(message)),
        status == Some(TOO_MANY_REQUESTS) ==> (r matches ApiClientError::QuotaBreach(text)
            && text@ == QUOTA_BREACH_MESSAGE@),
{
    match classify(status, code, message) {
        Failure::QuotaBreach => ApiClientError::QuotaBreach(QUOTA_BREACH_MESSAGE.to_owned()),
        Failure::ContextWindowOverflow => ApiClientError::ContextWindowOverflow,
        Failure::Other => ApiClientError::Service {
            backend,
            status,
            code: owned(code),
            message: owned(message),
        },
    }
}

/// The code that optional metadata holds.
pub open spec fn code_of(meta: Option<&aws_smithy_types::error::ErrorMetadata>) -> Option<
    Seq<char>,
> {
    match meta {
        Some(m) => error_code(*m),
        None => None,
    }
}

/// The message that optional metadata holds.
pub open spec fn message_of(meta: Option<&aws_smithy_types::error::ErrorMetadata>) -> Option<
    Seq<char>,
> {
    match meta {
        Some(m) => error_message(*m),
        None => None,
    }
}

/// The error for a failure of the first enterprise backend: from the HTTP
/// status of the raw response, if there is one, and the metadata of the
/// service error, if there is one.
pub fn classify_codewhisperer_error(
    status: Option<u16>,
    meta: Option<&aws_smithy_types::error::ErrorMetadata>,
) -> (r: ApiClientError)
    ensures
        is_failure_of(r, Backend::Codewhisperer, status, code_of(meta), message_of(meta)),
        status == Some(TOO_MANY_REQUESTS) ==> (r matches ApiClientError::QuotaBreach(text)
            && text@ == QUOTA_BREACH_MESSAGE@),
{
    let code = match meta {
        Some(m) => m.code(),
        None => None,
    };
    let message = match meta {
        Some(m) => m.message(),
        None => None,
    };
    enterprise_error(Backend::Codewhisperer, status, code, message)
}

/// The error for a failure of the second enterprise backend, told as a
/// failure of the first is: a 429 is a breach of quota, too long an input
/// an overflow of the context window, and everything else passes through.
pub fn qdeveloper_error(status: Option<u16>, code: Option<&str>, message: Option<&str>) -> (r:
    ApiClientError)
    ensures
        is_failure_of(r, Backend::QDeveloper, status, text_of(code), text_of(message)),
        status == Some(TOO_MANY_REQUESTS) ==> (r matches ApiClientError::QuotaBreach(text)
            && text@ == QUOTA_BREACH_MESSAGE@),
{
    enterprise_error(Backend::QDeveloper, status, code, message)
}

/// Collects the past turns as the backend takes them. Each turn was put
/// into the backend's form on its own; one that failed fails the whole, with
/// the error of the first that failed, and nothing is kept of the others.
pub fn collect_history<M, E>(converted: Vec<Result<M, E>>) -> (r: Result<Vec<M>, E>)
    ensures
        r is Ok <==> forall|i: int| 0 <= i < converted.len() ==> (#[trigger] converted[i]) is Ok,
        r matches Ok(history) ==> history.len() == converted.len() && forall|i: int|
            0 <= i < converted.len() ==> Ok::<M, E>(#[trigger] history[i]) == converted[i],
        r matches Err(e) ==> exists|at: int|
            0 <= at < converted.len() && #[trigger] converted[at] == Err::<M, E>(e) && forall|
                i: int,
            | 0 <= i < at ==> (#[trigger] converted[i]) is Ok,
{
    let ghost all = converted@;
    let mut pending = converted;
    let mut reversed: Vec<M> = Vec::new();
    // Taken from the end, so the first failure is the last one seen.
    let mut failed: Option<E> = None;
    let ghost mut failed_at: int = all.len() as int;
    while pending.len() > 0
        invariant
            pending@ == all.take(pending.len() as int),
            failed is None ==> failed_at == all.len() && reversed.len() == all.len()
                - pending.len() && forall|k: int|
                0 <= k < reversed.len() ==> Ok::<M, E>(#[trigger] reversed[k]) == all[all.len()
                    - 1 - k],
            failed matches Some(e) ==> pending.len() <= failed_at < all.len() && all[failed_at]
                == Err::<M, E>(e) && forall|i: int|
                pending.len() <= i < failed_at ==> (#[trigger] all[i]) is Ok,
        decreases pending.len(),
    {
        let ghost before = pending@;
        let at = pending.len() - 1;
        let last = pending.pop().unwrap();
        assert(last == all[at as int]);
        assert(pending@ =~= all.take(at as int));
        match last {
            Ok(message) => {
                if failed.is_none() {
                    reversed.push(message);
                }
            },
            Err(e) => {
                failed = Some(e);
                proof {
                    failed_at = at as int;
                }
            },
        }
    }
    match failed {
        Some(e) => {
            assert(converted[failed_at] == Err::<M, E>(e));
            assert(!(converted[failed_at] is Ok));
            Err(e)
        },
        None => {
            assert forall|i: int| 0 <= i < converted.len() implies (#[trigger] converted[i])
                is Ok by {
                assert(Ok::<M, E>(reversed[all.len() - 1 - i]) == all[i]);
            }
            let mut history: Vec<M> = Vec::new();
            let ghost backwards = reversed@;
            while reversed.len() > 0
                invariant
                    reversed@ == backwards.take(reversed.len() as int),
                    backwards.len() == all.len(),
                    history.len() == backwards.len() - reversed.len(),
                    forall|k: int|
                        0 <= k < backwards.len() ==> Ok::<M, E>(#[trigger] backwards[k])
                            == all[all.len() - 1 - k],
                    forall|i: int|
                        0 <= i < history.len() ==> Ok::<M, E>(#[trigger] history[i]) == all[i],
                decreases reversed.len(),
            {
                let at = reversed.len() - 1;
                let message = reversed.pop().unwrap();
                assert(message == backwards[at as int]);
                assert(reversed@ =~= backwards.take(at as int));
                history.push(message);
            }
            Ok(history)
        },
    }
}

/// What a tool returned, as the REST backend gets it: the first block, a
/// text as a JSON string and a document as it stands; `null` where there is
/// no block.
pub open spec fn result_content(blocks: Seq<ToolResultContentBlock>) -> JsonValue {
    if blocks.len() == 0 {
        JsonValue::Null
    } else {
        match blocks[0] {
            ToolResultContentBlock::Text(text) => JsonValue::String(text@),
            ToolResultContentBlock::Json(document) => document@,
        }
    }
}

/// The status of a tool call as the REST backend gets it.
pub open spec fn status_text(status: ToolResultStatus) -> Seq<char> {
    match status {
        ToolResultStatus::Success => "success"@,
        ToolResultStatus::Error => "error"@,
    }
}

/// A tool result as the REST backend gets it.
pub open spec fn result_view(result: ToolResult) -> ToolResultView {
    ToolResultView {
        tool_use_id: result.tool_use_id@,
        content: result_content(result.content@),
        status: status_text(result.status),
    }
}

/// A tool call as the REST backend gets it.
pub open spec fn use_view(tool_use: ToolUse) -> ToolUseView {
    ToolUseView { name: tool_use.name@, args: tool_use.input@, tool_use_id: tool_use.tool_use_id@ }
}

/// The tool results that come with a user's turn, if any.
pub open spec fn results_of(message: UserInputMessage) -> Option<Seq<ToolResultView>> {
    match message.user_input_message_context {
        Some(context) => match context.tool_results {
            Some(results) => Some(Seq::new(results@.len(), |i: int| result_view(results@[i]))),
            None => None,
        },
        None => None,
    }
}

/// A user's turn as the REST backend gets it.
pub open spec fn user_view(message: UserInputMessage) -> MessageView {
    MessageView::UserMessage { content: message.content@, tool_results: results_of(message) }
}

/// A past turn as the REST backend gets it.
pub open spec fn message_view(message: ChatMessage) -> MessageView {
    match message {
        ChatMessage::UserInputMessage(user) => user_view(user),
        ChatMessage::AssistantResponseMessage(assistant) => MessageView::AssistantMessage {
            content: assistant.content@,
            tool_uses: match assistant.tool_uses {
                Some(uses) => Some(Seq::new(uses@.len(), |i: int| use_view(uses@[i]))),
                None => None,
            },
        },
    }
}

/// The past turns as the REST backend gets them: none where there is no
/// history.
pub open spec fn history_views(history: Option<Vec<ChatMessage>>) -> Seq<MessageView> {
    match history {
        Some(messages) => Seq::new(messages@.len(), |i: int| message_view(messages@[i])),
        None => Seq::empty(),
    }
}

/// A tool as it is handed to the request builder: with its schema as it
/// stands, or the empty object where it has none. The request builder
/// reduces the schema, once.
pub open spec fn tool_view(tool: Tool) -> ToolView {
    let spec = tool->ToolSpecification_0;
    ToolView {
        name: spec.name@,
        description: spec.description@,
        parameters: match spec.input_schema.json {
            Some(schema) => schema@,
            None => JsonValue::Object(Seq::empty()),
        },
    }
}

/// The tools that come with a user's turn, if any.
pub open spec fn tools_of(message: UserInputMessage) -> Option<Seq<ToolView>> {
    match message.user_input_message_context {
        Some(context) => match context.tools {
            Some(tools) => Some(Seq::new(tools@.len(), |i: int| tool_view(tools@[i]))),
            None => None,
        },
        None => None,
    }
}

/// The request that the REST backend gets for a conversation.
pub open spec fn rest_request(conversation: ConversationState, temperature: Single)
    -> RequestView {
    RequestView {
        contents: conversation_entries(
            history_views(conversation.history).push(user_view(conversation.user_input_message)),
        ),
        tools: match tools_of(conversation.user_input_message) {
            Some(tools) => Some(tool_sets(tools)),
            None => None,
        },
        generation_config: Some(generation_config_for(temperature)),
    }
}

/// What a tool returned, as the REST backend gets it.
fn content_of(blocks: &Vec<ToolResultContentBlock>) -> (r: Json)
    ensures
        r@ == result_content(blocks@),
{
    if blocks.len() == 0 {
        Json::Null
    } else {
        match &blocks[0] {
            ToolResultContentBlock::Text(text) => Json::String(text.clone()),
            ToolResultContentBlock::Json(document) => document.clone(),
        }
    }
}

/// The tool results of a turn as the REST backend gets them.
fn to_results(results: &Vec<ToolResult>) -> (r: Vec<MockToolResult>)
    ensures
        views(r@) == Seq::new(results@.len(), |i: int| result_view(results@[i])),
{
    let mut out: Vec<MockToolResult> = Vec::new();
    let mut i: usize = 0;
    while i < results.len()
        invariant
            i <= results.len(),
            out.len() == i,
            forall|k: int| 0 <= k < i ==> (#[trigger] out[k])@ == result_view(results@[k]),
        decreases results.len() - i,
    {
        let result = &results[i];
        let status = match result.status {
            ToolResultStatus::Success => "success",
            ToolResultStatus::Error => "error",
        };
        out.push(
            MockToolResult {
                tool_use_id: result.tool_use_id.clone(),
                content: content_of(&result.content),
                status: status.to_owned(),
            },
        );
        i += 1;
    }
    assert(views(out@) =~= Seq::new(results@.len(), |i: int| result_view(results@[i])));
    out
}

/// The tool calls of a turn as the REST backend gets them.
fn to_uses(uses: &Vec<ToolUse>) -> (r: Vec<MockToolUse>)
    ensures
        views(r@) == Seq::new(uses@.len(), |i: int| use_view(uses@[i])),
{
    let mut out: Vec<MockToolUse> = Vec::new();
    let mut i: usize = 0;
    while i < uses.len()
        invariant
            i <= uses.len(),
            out.len() == i,
            forall|k: int| 0 <= k < i ==> (#[trigger] out[k])@ == use_view(uses@[k]),
        decreases uses.len() - i,
    {
        let tool_use = &uses[i];
        out.push(
            MockToolUse {
                name: tool_use.name.clone(),
                args: tool_use.input.clone(),
                tool_use_id: tool_use.tool_use_id.clone(),
            },
        );
        i += 1;
    }
    assert(views(out@) =~= Seq::new(uses@.len(), |i: int| use_view(uses@[i])));
    out
}

/// A user's turn as the REST backend gets it.
fn to_user_message(message: &UserInputMessage) -> (r: MockChatMessage)
    ensures
        r@ == user_view(*message),
{
    let tool_results = match &message.user_input_message_context {
        Some(context) => match &context.tool_results {
            Some(results) => Some(to_results(results)),
            None => None,
        },
        None => None,
    };
    MockChatMessage::UserMessage { content: message.content.clone(), tool_results }
}

/// A past turn as the REST backend gets it.
fn to_message(message: &ChatMessage) -> (r: MockChatMessage)
    ensures
        r@ == message_view(*message),
{
    match message {
        ChatMessage::UserInputMessage(user) => to_user_message(user),
        ChatMessage::AssistantResponseMessage(assistant) => {
            let tool_uses = match &assistant.tool_uses {
                Some(uses) => Some(to_uses(uses)),
                None => None,
            };
            MockChatMessage::AssistantMessage { content: assistant.content.clone(), tool_uses }
        },
    }
}

/// The past turns as the REST backend gets them.
fn to_history(history: &Option<Vec<ChatMessage>>) -> (r: Vec<MockChatMessage>)
    ensures
        views(r@) == history_views(*history),
{
    let mut out: Vec<MockChatMessage> = Vec::new();
    if let Some(messages) = history {
        let mut i: usize = 0;
        while i < messages.len()
            invariant
                i <= messages.len(),
                out.len() == i,
                forall|k: int| 0 <= k < i ==> (#[trigger] out[k])@ == message_view(messages@[k]),
            decreases messages.len() - i,
        {
            out.push(to_message(&messages[i]));
            i += 1;
        }
    }
    assert(views(out@) =~= history_views(*history));
    out
}

/// The tools of a turn as they are handed to the request builder.
fn to_tools(tools: &Vec<Tool>) -> (r: Vec<MockTool>)
    ensures
        views(r@) == Seq::new(tools@.len(), |i: int| tool_view(tools@[i])),
{
    let mut out: Vec<MockTool> = Vec::new();
    let mut i: usize = 0;
    while i < tools.len()
        invariant
            i <= tools.len(),
            out.len() == i,
            forall|k: int| 0 <= k < i ==> (#[trigger] out[k])@ == tool_view(tools@[k]),
        decreases tools.len() - i,
    {
        match &tools[i] {
            Tool::ToolSpecification(spec) => {
                let parameters = match &spec.input_schema.json {
                    Some(schema) => schema.clone(),
                    None => {
                        let none: Vec<Member> = Vec::new();
                        assert(entries(none@) =~= Seq::empty());
                        Json::Object(none)
                    },
                };
                out.push(
                    MockTool {
                        name: spec.name.clone(),
                        description: spec.description.clone(),
                        parameters,
                    },
                );
            },
        }
        i += 1;
    }
    assert(views(out@) =~= Seq::new(tools@.len(), |i: int| tool_view(tools@[i])));
    out
}

/// Whether the JSON values that a conversation carries to the REST backend
/// are well-formed: the inputs of its tool calls, what its tools returned,
/// and the schemas of its tools.
pub open spec fn carries_well_formed(conversation: ConversationState) -> bool {
    &&& messages_well_formed(
        history_views(conversation.history).push(user_view(conversation.user_input_message)),
    )
    &&& tools_of(conversation.user_input_message) matches Some(tools) ==> tools_well_formed(
        tools,
    )
}

/// Builds the request that the REST backend gets for a conversation. Each
/// tool's schema is reduced once.
pub fn gemini_request(conversation: &ConversationState, temperature: Single) -> (r:
    GeminiRequest)
    ensures
        r@ == rest_request(*conversation, temperature),
        carries_well_formed(*conversation) ==> r@.well_formed(),
{
    let history = to_history(&conversation.history);
    let user_message = to_user_message(&conversation.user_input_message);
    let tools = match &conversation.user_input_message.user_input_message_context {
        Some(context) => match &context.tools {
            Some(tools) => Some(to_tools(tools)),
            None => None,
        },
        None => None,
    };
    match &tools {
        Some(tools) => conversation_state_to_gemini_request(
            &user_message,
            history.as_slice(),
            Some(tools.as_slice()),
            temperature,
        ),
        None => conversation_state_to_gemini_request(
            &user_message,
            history.as_slice(),
            None,
            temperature,
        ),
    }
}

/// The events that one part of an answer gives: a text gives one event; a
/// function call gives two, the first with the tool alone, the second with
/// the input written as JSON and the stop mark; a function response gives
/// none.
pub open spec fn part_events(part: PartView, tool_use_id: Seq<char>) -> Seq<EventView> {
    match part {
        PartView::Text { text } => seq![EventView::AssistantResponseEvent { content: text }],
        PartView::FunctionCall { function_call } => seq![
            EventView::ToolUseEvent {
                tool_use_id,
                name: function_call.name,
                input: None,
                stop: None,
            },
            EventView::ToolUseEvent {
                tool_use_id,
                name: function_call.name,
                input: Some(json_text(function_call.args)),
                stop: Some(true),
            },
        ],
        PartView::FunctionResponse { .. } => Seq::empty(),
    }
}

/// The events that the parts of an answer give, in order; `ids` holds for
/// each part the identifier that a tool call in it gets.
pub open spec fn parts_events(parts: Seq<PartView>, ids: Seq<Seq<char>>) -> Seq<EventView>
    decreases parts.len(),
{
    if parts.len() == 0 || ids.len() != parts.len() {
        Seq::empty()
    } else {
        parts_events(parts.drop_last(), ids.drop_last()) + part_events(parts.last(), ids.last())
    }
}

/// Whether each of `ids` is the identifier of a tool call made at some
/// time.
pub open spec fn timed_ids(ids: Seq<Seq<char>>) -> bool {
    forall|i: int|
        0 <= i < ids.len() ==> exists|millis: nat| #[trigger] ids[i] == tool_use_id_at(millis)
}

/// The events of one part of an answer, with the identifier that a tool
/// call in it gets.
pub fn events_of_part(part: &GeminiPart, tool_use_id: &str) -> (r: Vec<ChatResponseStream>)
    ensures
        views(r@) == part_events(part@, tool_use_id@),
{
    match part {
        GeminiPart::Text { text } => {
            let events = vec![ChatResponseStream::AssistantResponseEvent { content: text.clone() }];
            assert(views(events@) =~= part_events(part@, tool_use_id@));
            events
        },
        GeminiPart::FunctionCall { function_call } => {
            let input = write_json(&function_call.args);
            let events = vec![
                ChatResponseStream::ToolUseEvent {
                    tool_use_id: tool_use_id.to_owned(),
                    name: function_call.name.clone(),
                    input: None,
                    stop: None,
                },
                ChatResponseStream::ToolUseEvent {
                    tool_use_id: tool_use_id.to_owned(),
                    name: function_call.name.clone(),
                    input: Some(input),
                    stop: Some(true),
                },
            ];
            assert(views(events@) =~= part_events(part@, tool_use_id@));
            events
        },
        GeminiPart::FunctionResponse { .. } => {
            let events: Vec<ChatResponseStream> = Vec::new();
            assert(views(events@) =~= part_events(part@, tool_use_id@));
            events
        },
    }
}

/// The parts of the first candidate of a response; none where it has no
/// candidate.
pub open spec fn first_parts(response: GeminiResponse) -> Seq<PartView> {
    if response.candidates@.len() == 0 {
        Seq::empty()
    } else {
        views(response.candidates@[0].content.parts@)
    }
}

/// The events of an answer of the REST backend, in the order of the parts
/// of its first candidate. Each tool call gets an identifier made from the
/// time at which it is met.
pub fn response_events(response: &GeminiResponse) -> (r: Vec<ChatResponseStream>)
    ensures
        exists|ids: Seq<Seq<char>>|
            ids.len() == first_parts(*response).len() && timed_ids(ids) && views(r@)
                == #[trigger] parts_events(first_parts(*response), ids),
{
    let mut streams: Vec<ChatResponseStream> = Vec::new();
    if response.candidates.len() == 0 {
        assert(views(streams@) =~= parts_events(first_parts(*response), Seq::empty()));
        assert(timed_ids(Seq::empty()));
        return streams;
    }
    let parts = &response.candidates[0].content.parts;
    let ghost all = views(parts@);
    let ghost mut ids: Seq<Seq<char>> = Seq::empty();
    let mut i: usize = 0;
    assert(all.take(0) =~= Seq::empty());
    assert(views(streams@) =~= Seq::empty());
    while i < parts.len()
        invariant
            i <= parts.len(),
            all == views(parts@),
            ids.len() == i,
            timed_ids(ids),
            views(streams@) == parts_events(all.take(i as int), ids),
        decreases parts.len() - i,
    {
        let tool_use_id = generate_tool_use_id();
        let mut events = events_of_part(&parts[i], tool_use_id.as_str());
        proof {
            let before = ids;
            ids = ids.push(tool_use_id@);
            let upto = all.take(i + 1);
            assert(upto.drop_last() =~= all.take(i as int));
            assert(upto.last() == parts[i as int]@);
            assert(ids.drop_last() =~= before);
            assert(ids.last() == tool_use_id@);
            assert forall|k: int| 0 <= k < ids.len() implies exists|millis: nat| #[trigger] ids[k]
                == tool_use_id_at(millis) by {
                if k < before.len() {
                    assert(ids[k] == before[k]);
                }
            }
        }
        let ghost so_far = views(streams@);
        let ghost added = views(events@);
        streams.append(&mut events);
        assert(views(streams@) =~= so_far + added);
        i += 1;
    }
    assert(all.take(i as int) =~= all);
    assert(first_parts(*response) == all);
    assert(views(streams@) == parts_events(first_parts(*response), ids));
    streams
}

/// The same items, last first.
pub fn reversed<T>(items: Vec<T>) -> (r: Vec<T>)
    ensures
        r@ == items@.reverse(),
{
    let ghost all = items@;
    let mut pending = items;
    let mut out: Vec<T> = Vec::new();
    while pending.len() > 0
        invariant
            pending@ == all.take(pending.len() as int),
            out.len() == all.len() - pending.len(),
            forall|k: int| 0 <= k < out.len() ==> #[trigger] out[k] == all[all.len() - 1 - k],
        decreases pending.len(),
    {
        let at = pending.len() - 1;
        let last = pending.pop().unwrap();
        assert(last == all[at as int]);
        assert(pending@ =~= all.take(at as int));
        out.push(last);
    }
    assert(out@ =~= all.reverse());
    out
}

/// The events of each batch.
pub open spec fn batches(queue: Seq<Vec<ChatResponseStream>>) -> Seq<Seq<EventView>> {
    Seq::new(queue.len(), |i: int| views(queue[i]@))
}

/// The answer of a backend that is at hand in full. The events are kept
/// last first, so that taking the next one is taking from the end.
#[derive(Debug)]
pub enum SendMessageOutput {
    Gemini(Vec<ChatResponseStream>),
    Mock(Vec<ChatResponseStream>),
}

impl SendMessageOutput {
    /// The events that are still to come, in the order in which they come.
    pub open spec fn remaining(&self) -> Seq<EventView> {
        match self {
            SendMessageOutput::Gemini(events) => views(events@).reverse(),
            SendMessageOutput::Mock(events) => views(events@).reverse(),
        }
    }

    /// The identifier of the request that was answered. These backends give
    /// none.
    pub fn request_id(&self) -> (r: Option<&str>)
        ensures
            r is None,
    {
        None
    }

    /// Takes the next event, if there is one. This never fails.
    pub fn recv(&mut self) -> (r: Result<Option<ChatResponseStream>, ApiClientError>)
        ensures
            r is Ok,
            *old(self) is Gemini <==> *final(self) is Gemini,
            old(self).remaining().len() == 0 ==> r == Ok::<
                Option<ChatResponseStream>,
                ApiClientError,
            >(None) && final(self).remaining() == old(self).remaining(),
            old(self).remaining().len() > 0 ==> (r matches Ok(Some(event)) && event@ == old(
                self,
            ).remaining()[0]) && final(self).remaining() == old(self).remaining().drop_first(),
    {
        let ghost before = self.remaining();
        let next = match self {
            SendMessageOutput::Gemini(events) => events.pop(),
            SendMessageOutput::Mock(events) => events.pop(),
        };
        proof {
            if before.len() > 0 {
                assert(self.remaining() =~= before.drop_first());
            } else {
                assert(self.remaining() =~= before);
            }
        }
        Ok(next)
    }
}

/// What the gateway holds of its backend.
#[derive(Debug)]
pub enum Inner {
    Codewhisperer,
    QDeveloper,
    Gemini(Client),
    /// The batches that are still to be replayed, last first.
    Mock(Vec<Vec<ChatResponseStream>>),
}

/// What is to be done with a conversation that was handed to the gateway.
#[derive(Debug)]
pub enum Outgoing {
    /// To be put into the first enterprise backend's form and sent to it,
    /// under the given profile.
    Codewhisperer { conversation: ConversationState, profile_arn: Option<String> },
    /// To be put into the second enterprise backend's form and sent to it.
    QDeveloper { conversation: ConversationState },
    /// To be sent to the REST backend.
    Gemini(GeminiRequest),
    /// Answered already.
    Answered(SendMessageOutput),
}

/// Which backend serves: the REST backend where its configuration file
/// exists; else the second enterprise backend where the process runs in a
/// cloud shell or the flag is set to something; else the first enterprise
/// backend.
pub open spec fn selected(config_present: bool, in_cloudshell: bool, flag: Option<Seq<char>>)
    -> Backend {
    if config_present {
        Backend::Gemini
    } else if in_cloudshell || (flag matches Some(value) && value.len() > 0) {
        Backend::QDeveloper
    } else {
        Backend::Codewhisperer
    }
}

/// Selects the backend.
pub fn select_backend(config_present: bool, in_cloudshell: bool, flag: Option<&str>) -> (r:
    Backend)
    ensures
        r == selected(config_present, in_cloudshell, text_of(flag)),
{
    if config_present {
        return Backend::Gemini;
    }
    let flagged = match flag {
        Some(value) => !value.is_empty(),
        None => false,
    };
    if in_cloudshell || flagged {
        Backend::QDeveloper
    } else {
        Backend::Codewhisperer
    }
}

/// What the mock backend answers next: the first batch in the queue, or
/// nothing where the queue is empty.
pub open spec fn mock_answer(queue: Seq<Seq<EventView>>) -> Seq<EventView> {
    if queue.len() > 0 {
        queue[0]
    } else {
        Seq::empty()
    }
}

/// What is left in the mock backend's queue after it answered.
pub open spec fn mock_rest(queue: Seq<Seq<EventView>>) -> Seq<Seq<EventView>> {
    if queue.len() > 0 {
        queue.drop_first()
    } else {
        queue
    }
}

/// The gateway: one backend, chosen when the gateway is made, and the
/// profile under which requests to it are made.
#[derive(Debug)]
pub struct StreamingClient {
    inner: Inner,
    profile: Option<AuthProfile>,
}

impl StreamingClient {
    /// The backend that serves.
    pub closed spec fn backend(&self) -> Backend {
        match self.inner {
            Inner::Codewhisperer => Backend::Codewhisperer,
            Inner::QDeveloper => Backend::QDeveloper,
            Inner::Gemini(_) => Backend::Gemini,
            Inner::Mock(_) => Backend::Mock,
        }
    }

    /// The batches that the mock backend is still to replay, in order.
    pub closed spec fn queued(&self) -> Seq<Seq<EventView>> {
        match self.inner {
            Inner::Mock(queue) => batches(queue@).reverse(),
            _ => Seq::empty(),
        }
    }

    /// The profile under which requests are made, if any.
    pub closed spec fn profile(&self) -> Option<AuthProfile> {
        self.profile
    }

    /// The REST backend's client, where that backend serves.
    pub closed spec fn client(&self) -> Option<Client> {
        match self.inner {
            Inner::Gemini(client) => Some(client),
            _ => None,
        }
    }

    /// The temperature that the REST backend is asked for.
    pub open spec fn heat(&self) -> Single {
        match self.client() {
            Some(client) => client.heat(),
            None => Single { bits: 0 },
        }
    }

    /// The REST backend's client, for the exchange itself.
    pub fn gemini_client(&self) -> (r: Option<&Client>)
        ensures
            referent(r) == self.client(),
    {
        match &self.inner {
            Inner::Gemini(client) => Some(client),
            _ => None,
        }
    }

    /// The backend that serves.
    pub fn which(&self) -> (r: Backend)
        ensures
            r == self.backend(),
    {
        match &self.inner {
            Inner::Codewhisperer => Backend::Codewhisperer,
            Inner::QDeveloper => Backend::QDeveloper,
            Inner::Gemini(_) => Backend::Gemini,
            Inner::Mock(_) => Backend::Mock,
        }
    }

    /// Makes the gateway for what was found of the surroundings: what lies
    /// where the REST backend's configuration should be, if anything does;
    /// whether the process runs in a cloud shell; the flag that asks
    /// for the second enterprise backend; and the stored profile, which
    /// only the first enterprise backend uses.
    ///
    /// A configuration that is there but cannot be loaded fails the
    /// construction. A file that is not there selects another backend.
    pub fn new(
        found: Option<ConfigFile>,
        in_cloudshell: bool,
        flag: Option<&str>,
        profile: Option<AuthProfile>,
    ) -> (r: Result<StreamingClient, ApiClientError>)
        ensures
            r is Ok <==> (found matches Some(file) ==> load_fault(file) is None),
            r matches Ok(client) ==> {
                &&& client.backend() == selected(
                    found is Some,
                    in_cloudshell,
                    text_of(flag),
                )
                &&& client.profile() == (if client.backend() == Backend::Codewhisperer {
                    profile
                } else {
                    None
                })
                &&& client.client() is Some <==> client.backend() == Backend::Gemini
                &&& found matches Some(ConfigFile::Parsed(config)) ==> configured(
                    client.client(),
                    config,
                )
            },
            r matches Err(e) ==> found matches Some(file)
                && e matches ApiClientError::ModelConfigurationError(text) && Some(text@)
                == configuration_failure(file),
    {
        match select_backend(found.is_some(), in_cloudshell, flag) {
            Backend::Gemini => match found {
                Some(file) => StreamingClient::new_gemini_client(file),
                None => Ok(StreamingClient::new_codewhisperer_client(profile)),
            },
            Backend::QDeveloper => Ok(StreamingClient::new_qdeveloper_client()),
            _ => Ok(StreamingClient::new_codewhisperer_client(profile)),
        }
    }

    /// A gateway to the mock backend, which replays the given batches, one
    /// for each conversation, in order.
    pub fn mock(events: Vec<Vec<ChatResponseStream>>) -> (r: StreamingClient)
        ensures
            r.backend() == Backend::Mock,
            r.queued() == batches(events@),
            r.profile() is None,
            r.client() is None,
    {
        let queue = reversed(events);
        assert(batches(queue@).reverse() =~= batches(events@));
        StreamingClient { inner: Inner::Mock(queue), profile: None }
    }

    /// A gateway to the first enterprise backend, under the given profile.
    pub fn new_codewhisperer_client(profile: Option<AuthProfile>) -> (r: StreamingClient)
        ensures
            r.backend() == Backend::Codewhisperer,
            r.profile() == profile,
            r.client() is None,
            r.queued().len() == 0,
    {
        StreamingClient { inner: Inner::Codewhisperer, profile }
    }

    /// A gateway to the second enterprise backend.
    pub fn new_qdeveloper_client() -> (r: StreamingClient)
        ensures
            r.backend() == Backend::QDeveloper,
            r.profile() is None,
            r.client() is None,
            r.queued().len() == 0,
    {
        StreamingClient { inner: Inner::QDeveloper, profile: None }
    }

    /// A gateway to the REST backend, from what was found where its
    /// configuration should be. This succeeds exactly where loading the
    /// configuration does.
    pub fn new_gemini_client(found: ConfigFile) -> (r: Result<StreamingClient, ApiClientError>)
        ensures
            r is Ok <==> load_fault(found) is None,
            r matches Ok(client) ==> client.backend() == Backend::Gemini && client.profile()
                is None && (found matches ConfigFile::Parsed(config) && configured(
                client.client(),
                config,
            )),
            r matches Err(e) ==> e matches ApiClientError::ModelConfigurationError(text) && Some(
                text@,
            ) == configuration_failure(found),
    {
        match load_config(found) {
            Ok(config) => Ok(
                StreamingClient { inner: Inner::Gemini(Client::new(config)), profile: None },
            ),
            Err(e) => {
                let text = e.to_text();
                Err(
                    ApiClientError::ModelConfigurationError(
                        concat("Failed to load Gemini configuration: ", text.as_str()),
                    ),
                )
            },
        }
    }

    /// Takes a conversation and says what is to be done with it. For the
    /// enterprise backends the conversation is handed on as it is, for the
    /// REST backend the request is built, and the mock backend answers on
    /// the spot with the next batch of its queue, or with nothing once the
    /// queue is used up.
    pub fn send_message(&mut self, conversation_state: ConversationState) -> (r: Outgoing)
        ensures
            final(self).backend() == old(self).backend(),
            final(self).profile() == old(self).profile(),
            final(self).client() == old(self).client(),
            final(self).queued() == mock_rest(old(self).queued()),
            match old(self).backend() {
                Backend::Codewhisperer => r matches Outgoing::Codewhisperer {
                    conversation,
                    profile_arn,
                } && conversation == conversation_state && view_of(profile_arn)
                    == (match old(self).profile() {
                    Some(profile) => Some(profile.arn@),
                    None => None,
                }),
                Backend::QDeveloper => r matches Outgoing::QDeveloper { conversation }
                    && conversation == conversation_state,
                Backend::Gemini => r matches Outgoing::Gemini(request) && request@
                    == rest_request(conversation_state, old(self).heat()),
                Backend::Mock => r matches Outgoing::Answered(output) && output is Mock
                    && output.remaining() == mock_answer(old(self).queued()),
            },
    {
        match &mut self.inner {
            Inner::Codewhisperer => {
                let profile_arn = match &self.profile {
                    Some(profile) => Some(profile.arn.clone()),
                    None => None,
                };
                Outgoing::Codewhisperer { conversation: conversation_state, profile_arn }
            },
            Inner::QDeveloper => Outgoing::QDeveloper { conversation: conversation_state },
            Inner::Gemini(client) => Outgoing::Gemini(
                gemini_request(&conversation_state, client.temperature()),
            ),
            Inner::Mock(queue) => {
                let ghost before = batches(queue@).reverse();
                let batch = match queue.pop() {
                    Some(batch) => batch,
                    None => Vec::new(),
                };
                let ghost answer = views(batch@);
                let events = reversed(batch);
                proof {
                    assert(views(events@).reverse() =~= answer);
                    assert(answer =~= mock_answer(before));
                    assert(batches(queue@).reverse() =~= mock_rest(before));
                }
                Outgoing::Answered(SendMessageOutput::Mock(events))
            },
        }
    }

    /// Turns what came of an exchange with the REST backend into the
    /// gateway's answer: the events of the response, or a runtime error
    /// that says why the exchange failed.
    pub fn gemini_output(result: Result<GeminiResponse, GeminiError>) -> (r: Result<
        SendMessageOutput,
        ApiClientError,
    >)
        ensures
            r is Ok <==> result is Ok,
            r is Ok ==> r->Ok_0 is Gemini && exists|ids: Seq<Seq<char>>|
                ids.len() == first_parts(result->Ok_0).len() && timed_ids(ids)
                    && r->Ok_0.remaining() == #[trigger] parts_events(
                    first_parts(result->Ok_0),
                    ids,
                ),
            r is Err ==> (r->Err_0 matches ApiClientError::ModelRuntimeError(text) && text@
                == "Gemini API request failed: "@ + result->Err_0.text()),
    {
        match result {
            Ok(response) => {
                let events = response_events(&response);
                let ghost in_order = views(events@);
                let backwards = reversed(events);
                assert(views(backwards@).reverse() =~= in_order);
                Ok(SendMessageOutput::Gemini(backwards))
            },
            Err(cause) => {
                let text = cause.to_text();
                Err(
                    ApiClientError::ModelRuntimeError(
                        concat("Gemini API request failed: ", text.as_str()),
                    ),
                )
            },
        }
    }
}

/// Whether there is a client and it holds the given configuration.
pub open spec fn configured(client: Option<Client>, config: crate::config::GeminiConfig) -> bool {
    client matches Some(c) && c.key() == config.api_key@ && c.model() == config.model@ && c.heat()
        == config.temperature
}

/// What the error says where the REST backend's configuration cannot be
/// loaded.
pub open spec fn configuration_failure(found: ConfigFile) -> Option<Seq<char>> {
    match load_fault(found) {
        Some(fault) => Some(
            "Failed to load Gemini configuration: "@ + ("Configuration error: "@ + fault),
        ),
        None => None,
    }
}

/// The mock backend's queue after it answered `sends` conversations.
pub open spec fn queue_after(queue: Seq<Seq<EventView>>, sends: nat) -> Seq<Seq<EventView>>
    decreases sends,
{
    if sends == 0 {
        queue
    } else {
        mock_rest(queue_after(queue, (sends - 1) as nat))
    }
}

/// After any number of conversations the mock backend's queue is what was
/// queued behind as many batches.
pub proof fn lemma_queue_after(queue: Seq<Seq<EventView>>, sends: nat)
    ensures
        queue_after(queue, sends) == (if sends <= queue.len() {
            queue.skip(sends as int)
        } else {
            Seq::empty()
        }),
    decreases sends,
{
    if sends == 0 {
        assert(queue.skip(0) =~= queue);
    } else {
        lemma_queue_after(queue, (sends - 1) as nat);
        let before = queue_after(queue, (sends - 1) as nat);
        if sends <= queue.len() {
            assert(before.drop_first() =~= queue.skip(sends as int));
        } else if sends - 1 == queue.len() {
            assert(before =~= Seq::empty());
        }
    }
}

/// The mock backend replays its batches in order: with `n` batches queued,
/// the conversation sent after `k` others is answered with batch `k` where
/// `k < n`, and with nothing from then on.
pub proof fn lemma_mock_replays_in_order(queue: Seq<Seq<EventView>>, k: nat)
    ensures
        mock_answer(queue_after(queue, k)) == (if k < queue.len() {
            queue[k as int]
        } else {
            Seq::<EventView>::empty()
        }),
{
    lemma_queue_after(queue, k);
}

} // verus!
