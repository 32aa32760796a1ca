//! The REST backend's wire shapes: requests made of `contents`, `tools` and
//! a generation configuration, and responses made of candidates.

use vstd::prelude::*;

use crate::json::{Json, JsonValue};
use crate::views::{view_of, views};

verus! {

/// A single-precision number, held by its IEEE-754 bit pattern so that it
/// can be carried and compared exactly.
#[derive(Clone, Copy, Debug, PartialEq, Eq, Structural)]
pub struct Single {
    pub bits: u32,
}

impl Single {
    /// The bit pattern of one.
    pub const ONE: u32 = 0x3F80_0000;

    /// The bit pattern of negative zero.
    pub const NEGATIVE_ZERO: u32 = 0x8000_0000;

    /// The number with the given bit pattern.
    pub fn from_bits(bits: u32) -> (r: Single)
        ensures
            r.bits == bits,
    {
        Single { bits }
    }

    /// The bit pattern of the number.
    pub fn to_bits(&self) -> (bits: u32)
        ensures
            bits == self.bits,
    {
        self.bits
    }

    /// Whether the number lies between zero and one, both included. Among
    /// the non-negative singles the order of the numbers is the order of
    /// their bit patterns; negative zero is zero; no other pattern with the
    /// sign bit set, and no NaN, lies in the range.
    pub open spec fn in_unit_range(self) -> bool {
        self.bits <= Single::ONE || self.bits == Single::NEGATIVE_ZERO
    }

    /// Whether the number lies between zero and one, both included.
    pub fn is_in_unit_range(&self) -> (r: bool)
        ensures
            r == self.in_unit_range(),
    {
        self.bits <= Single::ONE || self.bits == Single::NEGATIVE_ZERO
    }
}

/// A call of a tool that the model asks for.
#[derive(Debug, PartialEq)]
pub struct GeminiFunctionCall {
    pub name: String,
    pub args: Json,
}

/// The value of a [`GeminiFunctionCall`].
pub struct FunctionCallView {
    pub name: Seq<char>,
    pub args: JsonValue,
}

impl View for GeminiFunctionCall {
    type V = FunctionCallView;

    open spec fn view(&self) -> FunctionCallView {
        FunctionCallView { name: self.name@, args: self.args@ }
    }
}

impl Clone for GeminiFunctionCall {
    fn clone(&self) -> (r: Self)
        ensures
            r@ == self@,
    {
        GeminiFunctionCall { name: self.name.clone(), args: self.args.clone() }
    }
}

/// What a tool answered, reported back to the model under the tool's name.
#[derive(Debug, PartialEq)]
pub struct GeminiFunctionResponse {
    pub name: String,
    pub response: Json,
}

/// The value of a [`GeminiFunctionResponse`].
pub struct FunctionResponseView {
    pub name: Seq<char>,
    pub response: JsonValue,
}

impl View for GeminiFunctionResponse {
    type V = FunctionResponseView;

    open spec fn view(&self) -> FunctionResponseView {
        FunctionResponseView { name: self.name@, response: self.response@ }
    }
}

impl Clone for GeminiFunctionResponse {
    fn clone(&self) -> (r: Self)
        ensures
            r@ == self@,
    {
        GeminiFunctionResponse { name: self.name.clone(), response: self.response.clone() }
    }
}

/// One part of a content entry.
#[derive(Debug, PartialEq)]
pub enum GeminiPart {
    Text { text: String },
    FunctionCall { function_call: GeminiFunctionCall },
    FunctionResponse { function_response: GeminiFunctionResponse },
}

/// The value of a [`GeminiPart`].
pub enum PartView {
    Text { text: Seq<char> },
    FunctionCall { function_call: FunctionCallView },
    FunctionResponse { function_response: FunctionResponseView },
}

impl View for GeminiPart {
    type V = PartView;

    open spec fn view(&self) -> PartView {
        match self {
            GeminiPart::Text { text } => PartView::Text { text: text@ },
            GeminiPart::FunctionCall { function_call } => PartView::FunctionCall {
                function_call: function_call@,
            },
            GeminiPart::FunctionResponse { function_response } => PartView::FunctionResponse {
                function_response: function_response@,
            },
        }
    }
}

/// One entry of a conversation: who speaks, and the parts said.
#[derive(Debug, PartialEq)]
pub struct GeminiContent {
    pub role: Option<String>,
    pub parts: Vec<GeminiPart>,
}

/// The value of a [`GeminiContent`].
pub struct ContentView {
    pub role: Option<Seq<char>>,
    pub parts: Seq<PartView>,
}

impl View for GeminiContent {
    type V = ContentView;

    open spec fn view(&self) -> ContentView {
        ContentView { role: view_of(self.role), parts: views(self.parts@) }
    }
}

/// The declaration of one callable tool.
#[derive(Debug, PartialEq)]
pub struct GeminiFunctionDeclaration {
    pub name: String,
    pub description: String,
    pub parameters: Json,
}

/// The value of a [`GeminiFunctionDeclaration`].
pub struct DeclarationView {
    pub name: Seq<char>,
    pub description: Seq<char>,
    pub parameters: JsonValue,
}

impl View for GeminiFunctionDeclaration {
    type V = DeclarationView;

    open spec fn view(&self) -> DeclarationView {
        DeclarationView {
            name: self.name@,
            description: self.description@,
            parameters: self.parameters@,
        }
    }
}

/// A set of tool declarations.
#[derive(Debug, PartialEq)]
pub struct GeminiTool {
    pub function_declarations: Vec<GeminiFunctionDeclaration>,
}

impl View for GeminiTool {
    type V = Seq<DeclarationView>;

    open spec fn view(&self) -> Seq<DeclarationView> {
        views(self.function_declarations@)
    }
}

/// How the model is to generate.
#[derive(Clone, Copy, Debug, PartialEq, Eq, Structural)]
pub struct GeminiGenerationConfig {
    pub temperature: Option<Single>,
    pub max_output_tokens: Option<u32>,
    pub top_k: Option<u32>,
    pub top_p: Option<Single>,
}

/// A request to the REST backend.
#[derive(Debug, PartialEq)]
pub struct GeminiRequest {
    pub contents: Vec<GeminiContent>,
    pub tools: Option<Vec<GeminiTool>>,
    pub generation_config: Option<GeminiGenerationConfig>,
}

/// The value of a [`GeminiRequest`].
pub struct RequestView {
    pub contents: Seq<ContentView>,
    pub tools: Option<Seq<Seq<DeclarationView>>>,
    pub generation_config: Option<GeminiGenerationConfig>,
}

impl PartView {
    /// Whether the JSON value that the part carries, if any, is
    /// well-formed.
    pub open spec fn well_formed(self) -> bool {
        match self {
            PartView::Text { .. } => true,
            PartView::FunctionCall { function_call } => function_call.args.well_formed(),
            PartView::FunctionResponse { function_response } => {
                function_response.response.well_formed()
            },
        }
    }
}

impl ContentView {
    /// Whether the JSON values that the entry carries are well-formed.
    pub open spec fn well_formed(self) -> bool {
        forall|k: int| 0 <= k < self.parts.len() ==> (#[trigger] self.parts[k]).well_formed()
    }
}

impl RequestView {
    /// Whether every JSON value in the request is well-formed, so that the
    /// request goes over the wire as it stands.
    pub open spec fn well_formed(self) -> bool {
        &&& forall|i: int|
            0 <= i < self.contents.len() ==> (#[trigger] self.contents[i]).well_formed()
        &&& self.tools matches Some(sets) ==> forall|i: int, k: int|
            0 <= i < sets.len() && 0 <= k < sets[i].len() ==> (
            #[trigger] sets[i][k]).parameters.well_formed()
    }
}

impl View for GeminiRequest {
    type V = RequestView;

    open spec fn view(&self) -> RequestView {
        RequestView {
            contents: views(self.contents@),
            tools: match self.tools {
                Some(tools) => Some(views(tools@)),
                None => None,
            },
            generation_config: self.generation_config,
        }
    }
}

/// One candidate answer.
#[derive(Debug, PartialEq)]
pub struct GeminiCandidate {
    pub content: GeminiContent,
    pub finish_reason: Option<String>,
}

/// A response of the REST backend.
#[derive(Debug, PartialEq)]
pub struct GeminiResponse {
    pub candidates: Vec<GeminiCandidate>,
}

} // verus!
