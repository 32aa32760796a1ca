//! The REST backend's client, without its transport: where requests go,
//! what a request to test the connection looks like, and which error each
//! failure of an exchange becomes.

use vstd::prelude::*;
use vstd::string::StringExecFns;

use crate::config::GeminiConfig;
use crate::conversion::entry_of;
use crate::error::{GeminiError, GeminiErrorKind};
use crate::text::concat;
use crate::types::{
    GeminiContent, GeminiGenerationConfig, GeminiPart, GeminiRequest, GeminiResponse, PartView,
    Single,
};
use crate::views::views;

verus! {

/// The base URL of the REST backend.
pub const GEMINI_API_BASE_URL: &'static str = "https://generativelanguage.googleapis.com/v1beta";

/// The endpoint that answers in one piece.
pub const GENERATE_ENDPOINT: &'static str = "generateContent";

/// The endpoint that answers in a stream.
pub const STREAM_ENDPOINT: &'static str = "streamGenerateContent";

/// The seconds after which a request is given up.
pub const REQUEST_TIMEOUT_SECONDS: u64 = 30;

/// The question that tests the connection.
pub const CONNECTION_TEST_PROMPT: &'static str =
    "Hello, can you respond with a simple 'Hello world!' message?";

/// The most tokens that the answer to the connection test may have.
pub const CONNECTION_TEST_MAX_OUTPUT_TOKENS: u32 = 50;

/// Client for the REST backend.
#[derive(Debug, PartialEq)]
pub struct Client {
    api_key: String,
    model: String,
    temperature: Single,
}

impl Client {
    /// The API key that authenticates the client.
    pub closed spec fn key(&self) -> Seq<char> {
        self.api_key@
    }

    /// The model that the client asks.
    pub closed spec fn model(&self) -> Seq<char> {
        self.model@
    }

    /// The temperature that the client asks for.
    pub closed spec fn heat(&self) -> Single {
        self.temperature
    }

    /// Creates a client with the given configuration.
    pub fn new(config: GeminiConfig) -> (r: Client)
        ensures
            r.key() == config.api_key@,
            r.model() == config.model@,
            r.heat() == config.temperature,
    {
        Client { api_key: config.api_key, model: config.model, temperature: config.temperature }
    }

    /// The URL of an endpoint for a model, with the key.
    pub open spec fn api_url(model: Seq<char>, endpoint: Seq<char>, key: Seq<char>) -> Seq<char> {
        GEMINI_API_BASE_URL@ + "/models/"@ + model + ":"@ + endpoint + "?key="@ + key
    }

    /// Gets the URL of the given endpoint for this client's model and key.
    pub fn get_api_url(&self, endpoint: &str) -> (r: String)
        ensures
            r@ == Client::api_url(self.model(), endpoint@, self.key()),
    {
        let mut url = String::from_str(GEMINI_API_BASE_URL);
        url.append("/models/");
        url.append(self.model.as_str());
        url.append(":");
        url.append(endpoint);
        url.append("?key=");
        url.append(self.api_key.as_str());
        url
    }

    /// Gets the temperature.
    pub fn temperature(&self) -> (r: Single)
        ensures
            r == self.heat(),
    {
        self.temperature
    }

    /// Whether an HTTP status reports success: 200 to 299.
    pub fn is_success(status: u16) -> (r: bool)
        ensures
            r == (200 <= status <= 299),
    {
        200 <= status && status <= 299
    }

    /// The error for a request that could not be sent.
    pub fn send_failure(cause: &str, streaming: bool) -> (r: GeminiError)
        ensures
            r@ == (
                GeminiErrorKind::Http,
                (if streaming {
                    "Failed to send streaming request: "@
                } else {
                    "Failed to send request: "@
                }) + cause@,
            ),
    {
        if streaming {
            GeminiError::HttpError(concat("Failed to send streaming request: ", cause))
        } else {
            GeminiError::HttpError(concat("Failed to send request: ", cause))
        }
    }

    /// What the error for a status that is no success says: the status, and
    /// the body of the answer, or `Unknown error` where it could not be
    /// read.
    pub open spec fn status_failure_text(
        status: Seq<char>,
        body: Option<Seq<char>>,
        streaming: bool,
    ) -> Seq<char> {
        (if streaming {
            "API streaming request failed with status "@
        } else {
            "API request failed with status "@
        }) + status + ": "@ + (match body {
            Some(text) => text,
            None => "Unknown error"@,
        })
    }

    /// The error for an answer whose status is no success.
    pub fn status_failure(status: &str, body: Option<&str>, streaming: bool) -> (r: GeminiError)
        ensures
            r@ == (
                GeminiErrorKind::Api,
                Client::status_failure_text(
                    status@,
                    match body {
                        Some(text) => Some(text@),
                        None => None,
                    },
                    streaming,
                ),
            ),
    {
        let mut text = if streaming {
            String::from_str("API streaming request failed with status ")
        } else {
            String::from_str("API request failed with status ")
        };
        text.append(status);
        text.append(": ");
        match body {
            Some(body) => text.append(body),
            None => text.append("Unknown error"),
        }
        GeminiError::ApiError(text)
    }

    /// The error for the body of a streamed answer that could not be had.
    pub fn body_failure(cause: &str) -> (r: GeminiError)
        ensures
            r@ == (GeminiErrorKind::Http, "Failed to get response bytes: "@ + cause@),
    {
        GeminiError::HttpError(concat("Failed to get response bytes: ", cause))
    }

    /// The error for an answer that could not be read as a response.
    pub fn parse_failure(cause: &str, streaming: bool) -> (r: GeminiError)
        ensures
            r@ == (
                GeminiErrorKind::Serialization,
                (if streaming {
                    "Failed to parse streaming response: "@
                } else {
                    "Failed to parse response: "@
                }) + cause@,
            ),
    {
        if streaming {
            GeminiError::SerializationError(concat("Failed to parse streaming response: ", cause))
        } else {
            GeminiError::SerializationError(concat("Failed to parse response: ", cause))
        }
    }

    /// The request that tests the connection: one short question from the
    /// user, no tools, and a small limit on the answer.
    pub fn connection_test_request(&self) -> (r: GeminiRequest)
        ensures
            r@.contents == seq![
                entry_of("user"@, PartView::Text { text: CONNECTION_TEST_PROMPT@ }),
            ],
            r@.tools is None,
            r@.generation_config == Some(
                GeminiGenerationConfig {
                    temperature: Some(self.heat()),
                    max_output_tokens: Some(CONNECTION_TEST_MAX_OUTPUT_TOKENS),
                    top_k: None,
                    top_p: None,
                },
            ),
    {
        let parts = vec![GeminiPart::Text { text: CONNECTION_TEST_PROMPT.to_owned() }];
        assert(views(parts@) =~= seq![PartView::Text { text: CONNECTION_TEST_PROMPT@ }]);
        let contents = vec![GeminiContent { role: Some("user".to_owned()), parts }];
        assert(views(contents@) =~= seq![
            entry_of("user"@, PartView::Text { text: CONNECTION_TEST_PROMPT@ }),
        ]);
        GeminiRequest {
            contents,
            tools: None,
            generation_config: Some(
                GeminiGenerationConfig {
                    temperature: Some(self.temperature),
                    max_output_tokens: Some(CONNECTION_TEST_MAX_OUTPUT_TOKENS),
                    top_k: None,
                    top_p: None,
                },
            ),
        }
    }
}

/// The texts among the given parts, in order.
pub open spec fn texts_of_parts(parts: Seq<PartView>) -> Seq<Seq<char>>
    decreases parts.len(),
{
    if parts.len() == 0 {
        Seq::empty()
    } else {
        texts_of_parts(parts.drop_last()) + (match parts.last() {
            PartView::Text { text } => seq![text],
            _ => Seq::empty(),
        })
    }
}

/// The texts of all candidates, in order.
pub open spec fn texts_of_candidates(candidates: Seq<Seq<PartView>>) -> Seq<Seq<char>>
    decreases candidates.len(),
{
    if candidates.len() == 0 {
        Seq::empty()
    } else {
        texts_of_candidates(candidates.drop_last()) + texts_of_parts(candidates.last())
    }
}

/// The parts of each candidate of a response.
pub open spec fn candidate_parts(response: GeminiResponse) -> Seq<Seq<PartView>> {
    Seq::new(
        response.candidates@.len(),
        |i: int| views(response.candidates@[i].content.parts@),
    )
}

/// The texts that a response holds: every text part of every candidate, in
/// order.
pub fn response_texts(response: &GeminiResponse) -> (r: Vec<String>)
    ensures
        views(r@) == texts_of_candidates(candidate_parts(*response)),
{
    let mut texts: Vec<String> = Vec::new();
    let ghost all = candidate_parts(*response);
    let mut i: usize = 0;
    assert(all.take(0) =~= Seq::empty());
    assert(views(texts@) =~= Seq::empty());
    while i < response.candidates.len()
        invariant
            i <= response.candidates.len(),
            all == candidate_parts(*response),
            views(texts@) == texts_of_candidates(all.take(i as int)),
        decreases response.candidates.len() - i,
    {
        let parts = &response.candidates[i].content.parts;
        let ghost before = views(texts@);
        let ghost these = views(parts@);
        let mut k: usize = 0;
        assert(these.take(0) =~= Seq::empty());
        assert(views(texts@) =~= before + texts_of_parts(these.take(0)));
        while k < parts.len()
            invariant
                k <= parts.len(),
                these == views(parts@),
                views(texts@) == before + texts_of_parts(these.take(k as int)),
            decreases parts.len() - k,
        {
            proof {
                let upto = these.take(k + 1);
                assert(upto.drop_last() =~= these.take(k as int));
                assert(upto.last() == parts[k as int]@);
            }
            let ghost so_far = views(texts@);
            if let GeminiPart::Text { text } = &parts[k] {
                texts.push(text.clone());
                assert(views(texts@) =~= so_far.push(text@));
            }
            k += 1;
            assert(views(texts@) =~= before + texts_of_parts(these.take(k as int)));
        }
        proof {
            assert(these.take(k as int) =~= these);
            let upto = all.take(i + 1);
            assert(upto.drop_last() =~= all.take(i as int));
            assert(upto.last() == these);
        }
        i += 1;
    }
    assert(all.take(i as int) =~= all);
    texts
}

} // verus!
