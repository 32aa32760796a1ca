//! From a conversation to a request of the REST backend.
//!
//! History and the current turn are flattened into one ordered list of
//! content entries. A turn with text gives one text entry; each tool call of
//! an assistant turn gives a function-call entry and is recorded in the
//! [`Correlator`]; each tool result of a user turn gives a function-response
//! entry under the name that the correlator resolves.

use vstd::prelude::*;

use crate::correlator::{resolved, Correlator};
use crate::json::{entries, Json, JsonValue, Member};
use crate::schema::{clean_parameters_for_gemini, cleaned};
use crate::types::{
    ContentView, DeclarationView, FunctionCallView, FunctionResponseView, GeminiContent,
    GeminiFunctionCall, GeminiFunctionDeclaration, GeminiFunctionResponse,
    GeminiGenerationConfig, GeminiPart, GeminiRequest, GeminiTool, PartView, Single,
};
use crate::text::{decimal, push_decimal, same};
use crate::views::views;

verus! {

/// The most tokens that an answer may have.
pub const MAX_OUTPUT_TOKENS: u32 = 4096;

/// A call of a tool, made in an assistant turn.
#[derive(Debug, Clone)]
pub struct MockToolUse {
    pub name: String,
    pub args: Json,
    pub tool_use_id: String,
}

/// The value of a [`MockToolUse`].
pub struct ToolUseView {
    pub name: Seq<char>,
    pub args: JsonValue,
    pub tool_use_id: Seq<char>,
}

impl View for MockToolUse {
    type V = ToolUseView;

    open spec fn view(&self) -> ToolUseView {
        ToolUseView { name: self.name@, args: self.args@, tool_use_id: self.tool_use_id@ }
    }
}

/// The result of a tool call, reported in a user turn. `status` is
/// `"success"` or `"error"`.
#[derive(Debug, Clone)]
pub struct MockToolResult {
    pub tool_use_id: String,
    pub content: Json,
    pub status: String,
}

/// The value of a [`MockToolResult`].
pub struct ToolResultView {
    pub tool_use_id: Seq<char>,
    pub content: JsonValue,
    pub status: Seq<char>,
}

impl View for MockToolResult {
    type V = ToolResultView;

    open spec fn view(&self) -> ToolResultView {
        ToolResultView {
            tool_use_id: self.tool_use_id@,
            content: self.content@,
            status: self.status@,
        }
    }
}

/// One turn of a conversation.
#[derive(Debug, Clone)]
pub enum MockChatMessage {
    UserMessage { content: String, tool_results: Option<Vec<MockToolResult>> },
    AssistantMessage { content: String, tool_uses: Option<Vec<MockToolUse>> },
}

/// The value of a [`MockChatMessage`].
pub enum MessageView {
    UserMessage { content: Seq<char>, tool_results: Option<Seq<ToolResultView>> },
    AssistantMessage { content: Seq<char>, tool_uses: Option<Seq<ToolUseView>> },
}

impl View for MockChatMessage {
    type V = MessageView;

    open spec fn view(&self) -> MessageView {
        match self {
            MockChatMessage::UserMessage { content, tool_results } => MessageView::UserMessage {
                content: content@,
                tool_results: match tool_results {
                    Some(results) => Some(views(results@)),
                    None => None,
                },
            },
            MockChatMessage::AssistantMessage {
                content,
                tool_uses,
            } => MessageView::AssistantMessage {
                content: content@,
                tool_uses: match tool_uses {
                    Some(uses) => Some(views(uses@)),
                    None => None,
                },
            },
        }
    }
}

/// A tool that the model may call.
#[derive(Debug, Clone)]
pub struct MockTool {
    pub name: String,
    pub description: String,
    pub parameters: Json,
}

/// The value of a [`MockTool`].
pub struct ToolView {
    pub name: Seq<char>,
    pub description: Seq<char>,
    pub parameters: JsonValue,
}

impl View for MockTool {
    type V = ToolView;

    open spec fn view(&self) -> ToolView {
        ToolView {
            name: self.name@,
            description: self.description@,
            parameters: self.parameters@,
        }
    }
}

/// Whether the JSON values that a turn carries are well-formed: what its
/// tools returned and what its tool calls were given.
pub open spec fn message_well_formed(message: MessageView) -> bool {
    match message {
        MessageView::UserMessage { tool_results: Some(results), .. } => forall|i: int|
            0 <= i < results.len() ==> (#[trigger] results[i]).content.well_formed(),
        MessageView::AssistantMessage { tool_uses: Some(uses), .. } => forall|i: int|
            0 <= i < uses.len() ==> (#[trigger] uses[i]).args.well_formed(),
        _ => true,
    }
}

/// Whether the JSON values that the turns carry are well-formed.
pub open spec fn messages_well_formed(messages: Seq<MessageView>) -> bool {
    forall|i: int| 0 <= i < messages.len() ==> message_well_formed(#[trigger] messages[i])
}

/// Whether the parameter schemas of the tools are well-formed.
pub open spec fn tools_well_formed(tools: Seq<ToolView>) -> bool {
    forall|i: int| 0 <= i < tools.len() ==> (#[trigger] tools[i]).parameters.well_formed()
}

/// The entry that carries `part` alone, said by `role`.
pub open spec fn entry_of(role: Seq<char>, part: PartView) -> ContentView {
    ContentView { role: Some(role), parts: seq![part] }
}

/// The text entry of a turn: none for empty text, else exactly one.
pub open spec fn text_entries(role: Seq<char>, content: Seq<char>) -> Seq<ContentView> {
    if content.len() == 0 {
        Seq::empty()
    } else {
        seq![entry_of(role, PartView::Text { text: content })]
    }
}

/// The payload of a function response: `{"result": content}` for the status
/// `"success"`, `{"error": content}` for any other.
pub open spec fn response_payload(content: JsonValue, status: Seq<char>) -> JsonValue {
    if status == "success"@ {
        JsonValue::Object(seq![("result"@, content)])
    } else {
        JsonValue::Object(seq![("error"@, content)])
    }
}

/// The function-response entry of one tool result, named through `names`.
pub open spec fn result_entry(names: Map<Seq<char>, Seq<char>>, result: ToolResultView)
    -> ContentView {
    entry_of(
        "user"@,
        PartView::FunctionResponse {
            function_response: FunctionResponseView {
                name: resolved(names, result.tool_use_id),
                response: response_payload(result.content, result.status),
            },
        },
    )
}

/// The function-call entry of one tool call.
pub open spec fn use_entry(tool_use: ToolUseView) -> ContentView {
    entry_of(
        "model"@,
        PartView::FunctionCall {
            function_call: FunctionCallView { name: tool_use.name, args: tool_use.args },
        },
    )
}

/// The names known after the given calls were recorded in order.
pub open spec fn names_with(names: Map<Seq<char>, Seq<char>>, uses: Seq<ToolUseView>) -> Map<
    Seq<char>,
    Seq<char>,
>
    decreases uses.len(),
{
    if uses.len() == 0 {
        names
    } else {
        names_with(names, uses.drop_last()).insert(uses.last().tool_use_id, uses.last().name)
    }
}

/// The entries that one turn gives, with `names` known before it.
pub open spec fn message_entries(names: Map<Seq<char>, Seq<char>>, message: MessageView) -> Seq<
    ContentView,
> {
    match message {
        MessageView::UserMessage { content, tool_results } => text_entries("user"@, content) + (
        match tool_results {
            Some(results) => Seq::new(results.len(), |i: int| result_entry(names, results[i])),
            None => Seq::empty(),
        }),
        MessageView::AssistantMessage { content, tool_uses } => text_entries("model"@, content)
            + (match tool_uses {
            Some(uses) => Seq::new(uses.len(), |i: int| use_entry(uses[i])),
            None => Seq::empty(),
        }),
    }
}

/// The names known after one turn, with `names` known before it.
pub open spec fn names_after(names: Map<Seq<char>, Seq<char>>, message: MessageView) -> Map<
    Seq<char>,
    Seq<char>,
> {
    match message {
        MessageView::AssistantMessage { tool_uses: Some(uses), .. } => names_with(names, uses),
        _ => names,
    }
}

/// The names known after all of `messages`, read in order.
pub open spec fn names_known(messages: Seq<MessageView>) -> Map<Seq<char>, Seq<char>>
    decreases messages.len(),
{
    if messages.len() == 0 {
        Map::empty()
    } else {
        names_after(names_known(messages.drop_last()), messages.last())
    }
}

/// The entries that `messages` give, read in order.
pub open spec fn conversation_entries(messages: Seq<MessageView>) -> Seq<ContentView>
    decreases messages.len(),
{
    if messages.len() == 0 {
        Seq::empty()
    } else {
        conversation_entries(messages.drop_last()) + message_entries(
            names_known(messages.drop_last()),
            messages.last(),
        )
    }
}

/// The declaration of one tool, its parameter schema reduced.
pub open spec fn declaration_of(tool: ToolView) -> DeclarationView {
    DeclarationView {
        name: tool.name,
        description: tool.description,
        parameters: cleaned(tool.parameters),
    }
}

/// The one set of declarations that holds every tool, in order.
pub open spec fn tool_sets(tools: Seq<ToolView>) -> Seq<Seq<DeclarationView>> {
    seq![Seq::new(tools.len(), |i: int| declaration_of(tools[i]))]
}

/// The generation configuration that goes with every request.
pub open spec fn generation_config_for(temperature: Single) -> GeminiGenerationConfig {
    GeminiGenerationConfig {
        temperature: Some(temperature),
        max_output_tokens: Some(MAX_OUTPUT_TOKENS),
        top_k: None,
        top_p: None,
    }
}

/// The entry that carries `part` alone, said by `role`.
fn single_part(role: &str, part: GeminiPart) -> (r: GeminiContent)
    ensures
        r@ == entry_of(role@, part@),
{
    let parts = vec![part];
    assert(views(parts@) =~= seq![part@]);
    GeminiContent { role: Some(role.to_owned()), parts }
}

/// Appends the text entry of a turn, if its text is not empty.
fn push_text(contents: &mut Vec<GeminiContent>, role: &str, content: &String)
    ensures
        views(final(contents)@) == views(old(contents)@) + text_entries(role@, content@),
{
    if !content.as_str().is_empty() {
        contents.push(single_part(role, GeminiPart::Text { text: content.clone() }));
    }
    assert(views(contents@) =~= views(old(contents)@) + text_entries(role@, content@));
}

/// Converts a tool result to the function response that reports it under
/// `tool_use_id`.
pub fn tool_result_to_gemini_function_response(tool_use_id: &str, content: &Json, status: &str)
    -> (r: GeminiFunctionResponse)
    ensures
        r@.name == tool_use_id@,
        r@.response == response_payload(content@, status@),
        content@.well_formed() ==> r@.response.well_formed(),
{
    let key = if same(status, "success") {
        "result"
    } else {
        "error"
    };
    let members = vec![Member::new(key, content.clone())];
    assert(entries(members@) =~= seq![(key@, content@)]);
    GeminiFunctionResponse { name: tool_use_id.to_owned(), response: Json::Object(members) }
}

/// Appends a function call and the response to it to a conversation: the
/// call said by the model, the response by the user.
pub fn add_function_response_to_conversation(
    conversation: &mut Vec<GeminiContent>,
    function_call: &GeminiFunctionCall,
    function_response: &GeminiFunctionResponse,
)
    ensures
        views(final(conversation)@) == views(old(conversation)@) + seq![
            entry_of("model"@, PartView::FunctionCall { function_call: function_call@ }),
            entry_of(
                "user"@,
                PartView::FunctionResponse { function_response: function_response@ },
            ),
        ],
{
    conversation.push(
        single_part("model", GeminiPart::FunctionCall { function_call: function_call.clone() }),
    );
    conversation.push(
        single_part(
            "user",
            GeminiPart::FunctionResponse { function_response: function_response.clone() },
        ),
    );
    assert(views(conversation@) =~= views(old(conversation)@) + seq![
        entry_of("model"@, PartView::FunctionCall { function_call: function_call@ }),
        entry_of("user"@, PartView::FunctionResponse { function_response: function_response@ }),
    ]);
}

/// Appends the entries of one turn and records its tool calls.
fn push_message(
    contents: &mut Vec<GeminiContent>,
    names: &mut Correlator,
    message: &MockChatMessage,
)
    ensures
        views(final(contents)@) == views(old(contents)@) + message_entries(
            old(names)@,
            message@,
        ),
        final(names)@ == names_after(old(names)@, message@),
{
    let ghost before = views(contents@);
    match message {
        MockChatMessage::UserMessage { content, tool_results } => {
            push_text(contents, "user", content);
            let ghost with_text = views(contents@);
            if let Some(results) = tool_results {
                let mut i: usize = 0;
                while i < results.len()
                    invariant
                        i <= results.len(),
                        views(contents@) == with_text + Seq::new(
                            i as nat,
                            |k: int| result_entry(names@, views(results@)[k]),
                        ),
                    decreases results.len() - i,
                {
                    let result = &results[i];
                    let name = names.resolve(result.tool_use_id.as_str());
                    let function_response = tool_result_to_gemini_function_response(
                        name.as_str(),
                        &result.content,
                        result.status.as_str(),
                    );
                    let ghost so_far = views(contents@);
                    contents.push(
                        single_part("user", GeminiPart::FunctionResponse { function_response }),
                    );
                    assert(views(contents@) =~= so_far.push(
                        result_entry(names@, views(results@)[i as int]),
                    ));
                    i += 1;
                    assert(views(contents@) =~= with_text + Seq::new(
                        i as nat,
                        |k: int| result_entry(names@, views(results@)[k]),
                    ));
                }
            }
            assert(views(contents@) =~= before + message_entries(names@, message@));
        },
        MockChatMessage::AssistantMessage { content, tool_uses } => {
            push_text(contents, "model", content);
            let ghost with_text = views(contents@);
            if let Some(uses) = tool_uses {
                let mut i: usize = 0;
                assert(views(uses@).take(0) =~= Seq::empty());
                while i < uses.len()
                    invariant
                        i <= uses.len(),
                        views(contents@) == with_text + Seq::new(
                            i as nat,
                            |k: int| use_entry(views(uses@)[k]),
                        ),
                        names@ == names_with(old(names)@, views(uses@).take(i as int)),
                    decreases uses.len() - i,
                {
                    let tool_use = &uses[i];
                    names.record(tool_use.tool_use_id.as_str(), tool_use.name.as_str());
                    let ghost so_far = views(contents@);
                    contents.push(
                        single_part(
                            "model",
                            GeminiPart::FunctionCall {
                                function_call: GeminiFunctionCall {
                                    name: tool_use.name.clone(),
                                    args: tool_use.args.clone(),
                                },
                            },
                        ),
                    );
                    assert(views(contents@) =~= so_far.push(use_entry(views(uses@)[i as int])));
                    proof {
                        let upto = views(uses@).take(i + 1);
                        assert(upto.drop_last() =~= views(uses@).take(i as int));
                        assert(upto.last() == views(uses@)[i as int]);
                    }
                    i += 1;
                    assert(views(contents@) =~= with_text + Seq::new(
                        i as nat,
                        |k: int| use_entry(views(uses@)[k]),
                    ));
                }
                assert(views(uses@).take(i as int) =~= views(uses@));
            }
            assert(views(contents@) =~= before + message_entries(old(names)@, message@));
        },
    }
}

/// Declares every tool in one set, each with its parameter schema reduced.
fn tools_to_gemini_tools(tools: &[MockTool]) -> (r: Vec<GeminiTool>)
    ensures
        views(r@) == tool_sets(views(tools@)),
{
    let mut function_declarations: Vec<GeminiFunctionDeclaration> = Vec::new();
    let mut i: usize = 0;
    while i < tools.len()
        invariant
            i <= tools.len(),
            views(function_declarations@) == Seq::new(
                i as nat,
                |k: int| declaration_of(views(tools@)[k]),
            ),
        decreases tools.len() - i,
    {
        let tool = &tools[i];
        let parameters = clean_parameters_for_gemini(&tool.parameters);
        let ghost so_far = views(function_declarations@);
        function_declarations.push(
            GeminiFunctionDeclaration {
                name: tool.name.clone(),
                description: tool.description.clone(),
                parameters,
            },
        );
        assert(views(function_declarations@) =~= so_far.push(
            declaration_of(views(tools@)[i as int]),
        ));
        i += 1;
        assert(views(function_declarations@) =~= Seq::new(
            i as nat,
            |k: int| declaration_of(views(tools@)[k]),
        ));
    }
    let sets = vec![GeminiTool { function_declarations }];
    assert(views(sets@) =~= tool_sets(views(tools@)));
    sets
}

/// Builds the request for a conversation: the entries of `history` and then
/// of `user_message`, the declarations of `tools` if there are any, and the
/// generation configuration with the given temperature.
pub fn conversation_state_to_gemini_request(
    user_message: &MockChatMessage,
    history: &[MockChatMessage],
    tools: Option<&[MockTool]>,
    temperature: Single,
) -> (r: GeminiRequest)
    ensures
        r@.contents == conversation_entries(views(history@).push(user_message@)),
        r@.tools == (match tools {
            Some(tools) => Some(tool_sets(views(tools@))),
            None => None,
        }),
        r@.generation_config == Some(generation_config_for(temperature)),
        messages_well_formed(views(history@).push(user_message@)) && (tools matches Some(
            tools,
        ) ==> tools_well_formed(views(tools@))) ==> r@.well_formed(),
{
    let mut contents: Vec<GeminiContent> = Vec::new();
    let mut names = Correlator::new();
    let ghost all = views(history@).push(user_message@);
    let mut i: usize = 0;
    assert(views(contents@) =~= Seq::empty());
    assert(all.take(0) =~= Seq::empty());
    while i < history.len()
        invariant
            i <= history.len(),
            all == views(history@).push(user_message@),
            views(contents@) == conversation_entries(all.take(i as int)),
            names@ == names_known(all.take(i as int)),
        decreases history.len() - i,
    {
        proof {
            let upto = all.take(i + 1);
            assert(upto.drop_last() =~= all.take(i as int));
            assert(upto.last() == history[i as int]@);
        }
        push_message(&mut contents, &mut names, &history[i]);
        i += 1;
    }
    proof {
        assert(all.drop_last() =~= all.take(i as int));
        assert(all.last() == user_message@);
    }
    push_message(&mut contents, &mut names, user_message);
    let declared = match tools {
        Some(tools) => Some(tools_to_gemini_tools(tools)),
        None => None,
    };
    let request = GeminiRequest {
        contents,
        tools: declared,
        generation_config: Some(
            GeminiGenerationConfig {
                temperature: Some(temperature),
                max_output_tokens: Some(MAX_OUTPUT_TOKENS),
                top_k: None,
                top_p: None,
            },
        ),
    };
    proof {
        if messages_well_formed(all) {
            crate::conversion_laws::lemma_entries_well_formed(all);
            assert(request@.contents == conversation_entries(all));
        }
        if let Some(tools) = tools {
            if tools_well_formed(views(tools@)) {
                crate::conversion_laws::lemma_tool_sets_well_formed(views(tools@));
                assert(request@.tools == Some(tool_sets(views(tools@))));
            }
        }
    }
    request
}

/// The width of a chunk: `chunk_size` characters, one where it is zero.
pub open spec fn chunk_width(chunk_size: usize) -> int {
    if chunk_size == 0 {
        1
    } else {
        chunk_size as int
    }
}

/// `text` cut into pieces of `width` characters, the last one shorter where
/// the text does not divide evenly. The empty text is one empty piece.
pub open spec fn chunks_of(text: Seq<char>, width: int) -> Seq<Seq<char>>
    decreases text.len(),
{
    if width <= 0 || text.len() <= width {
        seq![text]
    } else {
        seq![text.take(width)] + chunks_of(text.skip(width), width)
    }
}

/// The pieces of what is left of a text: none where nothing is left.
spec fn chunks_left(text: Seq<char>, width: int) -> Seq<Seq<char>> {
    if text.len() == 0 {
        Seq::empty()
    } else {
        chunks_of(text, width)
    }
}

/// Splits text into chunks of `chunk_size` characters each; the last chunk
/// holds what is left. A `chunk_size` of zero counts as one.
pub fn split_text_into_chunks(text: &str, chunk_size: usize) -> (r: Vec<String>)
    ensures
        views(r@) == chunks_of(text@, chunk_width(chunk_size)),
{
    broadcast use vstd::string::group_string_axioms;

    if text.is_empty() {
        let only = vec![String::new()];
        assert(only@[0]@ =~= text@);
        assert(views(only@) =~= seq![text@]);
        return only;
    }
    let ghost width = chunk_width(chunk_size);
    let mut chunks: Vec<String> = Vec::new();
    let mut current_chunk = String::new();
    let mut current_size: usize = 0;
    assert(current_chunk@ + text@.skip(0) =~= text@);
    assert(views(chunks@) + chunks_left(text@, width) =~= chunks_of(text@, width));
    for c in it: text.chars()
        invariant
            it.seq() == text@,
            width == chunk_width(chunk_size),
            current_size == current_chunk@.len(),
            current_size < width,
            chunks_of(text@, width) == views(chunks@) + chunks_left(
                current_chunk@ + text@.skip(it.index() as int),
                width,
            ),
    {
        let ghost before = current_chunk@ + text@.skip(it.index() as int);
        let ghost left = text@.skip(it.index() + 1);
        current_chunk.push(c);
        current_size += 1;
        assert(current_chunk@ + left =~= before);
        if current_size >= chunk_size {
            let ghost done = views(chunks@);
            let ghost piece = current_chunk@;
            assert(before.take(width) =~= piece);
            assert(before.skip(width) =~= left);
            chunks.push(current_chunk);
            current_chunk = String::new();
            current_size = 0;
            assert(views(chunks@) =~= done.push(piece));
            assert(current_chunk@ + left =~= left);
            assert(chunks_left(before, width) =~= seq![piece] + chunks_left(left, width));
        }
    }
    assert(text@.skip(text@.len() as int) =~= Seq::<char>::empty());
    assert(current_chunk@ + Seq::<char>::empty() =~= current_chunk@);
    if !current_chunk.as_str().is_empty() {
        let ghost done = views(chunks@);
        let ghost piece = current_chunk@;
        chunks.push(current_chunk);
        assert(views(chunks@) =~= done.push(piece));
    }
    chunks
}

/// The milliseconds that have passed since the Unix epoch by the system
/// clock, as `SystemTime::elapsed` gives them for the epoch; zero where the
/// clock stands before the epoch.
#[verifier::external_body]
fn millis_since_epoch() -> u128 {
    std::time::UNIX_EPOCH.elapsed().unwrap_or_default().as_millis()
}

/// The identifier of the tool call made at `millis`: `tool-` and the number
/// in decimal.
pub open spec fn tool_use_id_at(millis: nat) -> Seq<char> {
    "tool-"@ + decimal(millis)
}

/// The identifier for a tool call made `millis` milliseconds after the Unix
/// epoch.
pub fn tool_use_id_for(millis: u128) -> (id: String)
    ensures
        id@ == tool_use_id_at(millis as nat),
{
    let mut id = "tool-".to_owned();
    push_decimal(&mut id, millis);
    id
}

/// Generates an identifier for a tool call from the time of the call. Two
/// calls within one millisecond get the same identifier.
pub fn generate_tool_use_id() -> (id: String)
    ensures
        exists|millis: nat| id@ == tool_use_id_at(millis),
{
    let millis = millis_since_epoch();
    let id = tool_use_id_for(millis);
    assert(id@ == tool_use_id_at(millis as nat));
    id
}

} // verus!
