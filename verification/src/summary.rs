//! Summarization backends: what every backend can do, and the backend that
//! talks to a chat-completion API over HTTP.

use crate::error::{AISummaryError, ClientError, VarError};
use crate::header::{
    empty_header_map, header_map_entries, header_text_allowed, header_value, insert_header,
    no_headers,
};
use crate::medium::{build_client, built_with, client_default_headers};
use reqwest::header::{HeaderMap, HeaderValue, InvalidHeaderValue};
use std::time::Duration;
use vstd::prelude::*;
use vstd::utf8::encode_utf8;

verus! {

/// One message of a conversation.
#[derive(Debug)]
pub struct Message {
    pub role: String,
    pub content: String,
}

/// A message as plain text.
pub struct MessageView {
    pub role: Seq<char>,
    pub content: Seq<char>,
}

impl View for Message {
    type V = MessageView;

    open spec fn view(&self) -> MessageView {
        MessageView { role: self.role@, content: self.content@ }
    }
}

/// The payload of one request to a backend: which model is asked, the
/// instruction it is given, the most tokens it may answer with, and the
/// conversation so far.
#[derive(Debug)]
pub struct RequestBody {
    pub model: String,
    pub system: String,
    pub max_tokens: u64,
    pub messages: Vec<Message>,
}

/// A payload as plain values.
pub struct RequestBodyView {
    pub model: Seq<char>,
    pub system: Seq<char>,
    pub max_tokens: u64,
    pub messages: Seq<MessageView>,
}

impl View for RequestBody {
    type V = RequestBodyView;

    open spec fn view(&self) -> RequestBodyView {
        RequestBodyView {
            model: self.model@,
            system: self.system@,
            max_tokens: self.max_tokens,
            messages: Seq::new(self.messages@.len(), |i: int| self.messages@[i]@),
        }
    }
}

/// All that the transport needs for one POST: the client to send with, built
/// to send `headers` with every request, the address, the payload, and the
/// time that the exchange may take, if it is limited.
#[derive(Debug)]
pub struct SummaryRequest {
    pub client: reqwest::Client,
    pub headers: HeaderMap<HeaderValue>,
    pub url: String,
    pub body: RequestBody,
    pub deadline: Option<Duration>,
}

/// What the transport reports of one POST.
#[derive(Debug)]
pub enum Exchange<T> {
    /// The request could not be sent, or no response came.
    SendFailed(reqwest::Error),
    /// A response came, but it did not have the expected shape.
    BadReply(reqwest::Error),
    /// The response, decoded.
    Reply(T),
}

impl<T> Exchange<T> {
    /// What a backend returns when the transport reported `self`.
    pub open spec fn settles(self, r: Result<T, AISummaryError>) -> bool {
        match self {
            Exchange::SendFailed(cause) => r == Err::<T, AISummaryError>(
                AISummaryError::FetchFailed(ClientError::FetchFailed(cause)),
            ),
            Exchange::BadReply(cause) => r == Err::<T, AISummaryError>(
                AISummaryError::FetchFailed(ClientError::ParseError(cause)),
            ),
            Exchange::Reply(reply) => r == Ok::<T, AISummaryError>(reply),
        }
    }

    /// Turns what the transport reported into the backend's result: the
    /// decoded response, or the failure wrapped around its cause.
    pub fn into_result(self) -> (r: Result<T, AISummaryError>)
        ensures
            self.settles(r),
    {
        match self {
            Exchange::SendFailed(cause) => Err(
                AISummaryError::FetchFailed(ClientError::FetchFailed(cause)),
            ),
            Exchange::BadReply(cause) => Err(
                AISummaryError::FetchFailed(ClientError::ParseError(cause)),
            ),
            Exchange::Reply(reply) => Ok(reply),
        }
    }
}

/// What a summarization backend can do: say what it would send for a text,
/// and run one exchange to have the text summarized. `T` is the decoded
/// response.
pub trait AISummary<T> {
    /// The payload that the backend sends for `content`.
    spec fn body_model(&self, content: Seq<char>) -> RequestBodyView;

    /// Whether the backend's credentials can be sent as header values.
    spec fn credentials_allowed(&self) -> bool;

    /// Whether `request` is what the backend hands to the transport for
    /// `content` under `deadline`.
    spec fn asks(&self, content: Seq<char>, deadline: Option<Duration>, request: SummaryRequest) -> bool;

    /// Summarizes `content` in one exchange. Where the credentials cannot be
    /// sent as headers it fails before the transport is called. Else it hands
    /// the request to `transport`, once, unless no client could be built,
    /// and returns what `Exchange::settles` says of the transport's report.
    fn fetch<F: FnOnce(SummaryRequest) -> Exchange<T>>(
        &self,
        content: String,
        deadline: Option<Duration>,
        transport: F,
    ) -> (r: Result<T, AISummaryError>)
        requires
            self.credentials_allowed() ==> forall|request: SummaryRequest|
                self.asks(content@, deadline, request) ==> call_requires(transport, (request,)),
        ensures
            !self.credentials_allowed() ==> r matches Err(
                AISummaryError::FetchFailed(ClientError::InsertHeaderFailed(_)),
            ),
            self.credentials_allowed() ==> {
                ||| r matches Err(AISummaryError::FetchFailed(ClientError::FetchFailed(_)))
                ||| exists|request: SummaryRequest, reported: Exchange<T>|
                    {
                        &&& self.asks(content@, deadline, request)
                        &&& #[trigger] call_ensures(transport, (request,), reported)
                        &&& reported.settles(r)
                    }
            },
    ;

    /// The payload for `content`. It depends on the backend and on `content`
    /// alone.
    fn build_body(&self, content: String) -> (body: RequestBody)
        ensures
            body@ == self.body_model(content@),
    ;
}

/// The instruction that goes with every text.
pub const INSTRUCTION: &'static str = "can you summarize this as bullet point with english lang";

/// The most tokens that the model may answer with.
pub const MAX_TOKENS: u64 = 1024;

/// The role under which the text is sent.
pub const USER_ROLE: &'static str = "user";

/// The protocol version that every request names.
pub const API_VERSION: &'static str = "2023-06-01";

/// The content type of every request.
pub const CONTENT_TYPE: &'static str = "application/json";

/// The headers that the backend sends with a request under this API key.
pub open spec fn api_headers(apikey: Seq<char>) -> Map<Seq<char>, Seq<u8>> {
    no_headers().insert("x-api-key"@, encode_utf8(apikey)).insert(
        "anthropic-version"@,
        encode_utf8(API_VERSION@),
    ).insert("content-type"@, encode_utf8(CONTENT_TYPE@))
}

/// The header map of a request under this API key: `api_headers` of the key,
/// where the key can be a header value, and else the reason why it cannot.
pub fn api_header_map(apikey: &str) -> (r: Result<HeaderMap<HeaderValue>, InvalidHeaderValue>)
    ensures
        r is Ok <==> header_text_allowed(apikey@),
        r matches Ok(headers) ==> header_map_entries(headers) == api_headers(apikey@),
{
    let mut headers = empty_header_map();
    let key = match header_value(apikey) {
        Ok(value) => value,
        Err(cause) => { return Err(cause); },
    };
    proof {
        reveal_strlit("x-api-key");
        reveal_strlit("anthropic-version");
        reveal_strlit("content-type");
        reveal_strlit("2023-06-01");
        reveal_strlit("application/json");
    }
    insert_header(&mut headers, "x-api-key", key);
    let version = match header_value(API_VERSION) {
        Ok(value) => value,
        Err(cause) => { return Err(cause); },
    };
    insert_header(&mut headers, "anthropic-version", version);
    let content_type = match header_value(CONTENT_TYPE) {
        Ok(value) => value,
        Err(cause) => { return Err(cause); },
    };
    insert_header(&mut headers, "content-type", content_type);
    Ok(headers)
}

/// One content block of a response.
#[derive(Debug)]
pub struct Claude3resposeContent {
    text: String,
}

impl Claude3resposeContent {
    /// The text of the block.
    pub closed spec fn spec_text(&self) -> Seq<char> {
        self.text@
    }

    pub fn new(text: String) -> (block: Self)
        ensures
            block.spec_text() == text@,
    {
        Self { text }
    }

    /// The text of the block.
    pub fn text(&self) -> (text: &str)
        ensures
            text@ == self.spec_text(),
    {
        self.text.as_str()
    }
}

/// A decoded response: its content blocks in the order in which the provider
/// returned them, the response's identifier and the model that answered.
#[derive(Debug)]
pub struct Claude3respose {
    content: Vec<Claude3resposeContent>,
    id: String,
    model: String,
}

impl Claude3respose {
    /// The texts of the content blocks, in their order.
    pub closed spec fn spec_segments(&self) -> Seq<Seq<char>> {
        Seq::new(self.content@.len(), |i: int| self.content@[i].spec_text())
    }

    /// The response's identifier.
    pub closed spec fn spec_id(&self) -> Seq<char> {
        self.id@
    }

    /// The model that answered.
    pub closed spec fn spec_model(&self) -> Seq<char> {
        self.model@
    }

    pub fn new(content: Vec<Claude3resposeContent>, id: String, model: String) -> (response: Self)
        ensures
            response.spec_segments() == Seq::new(
                content@.len(),
                |i: int| content@[i].spec_text(),
            ),
            response.spec_id() == id@,
            response.spec_model() == model@,
    {
        Self { content, id, model }
    }

    /// The content blocks, in their order.
    pub fn content(&self) -> (blocks: &Vec<Claude3resposeContent>)
        ensures
            blocks@.len() == self.spec_segments().len(),
            forall|i: int|
                0 <= i < blocks@.len() ==> (#[trigger] blocks@[i]).spec_text()
                    == self.spec_segments()[i],
    {
        &self.content
    }

    /// The response's identifier.
    pub fn id(&self) -> (id: &str)
        ensures
            id@ == self.spec_id(),
    {
        self.id.as_str()
    }

    /// The model that answered.
    pub fn model(&self) -> (model: &str)
        ensures
            model@ == self.spec_model(),
    {
        self.model.as_str()
    }

    /// The texts of the content blocks, in their order.
    pub fn segments(&self) -> (texts: Vec<String>)
        ensures
            texts@.len() == self.spec_segments().len(),
            forall|i: int| 0 <= i < texts@.len() ==> (#[trigger] texts@[i])@ == self.spec_segments()[i],
    {
        let mut texts: Vec<String> = Vec::new();
        let mut i: usize = 0;
        while i < self.content.len()
            invariant
                i <= self.content.len(),
                texts@.len() == i,
                forall|k: int| 0 <= k < i ==> (#[trigger] texts@[k])@ == self.spec_segments()[k],
            decreases self.content.len() - i,
        {
            texts.push(self.content[i].text.clone());
            i = i + 1;
        }
        texts
    }
}

/// A backend for a model that runs on this machine. It holds nothing yet.
#[derive(Debug)]
pub struct OllamaAgent {}

impl OllamaAgent {
    pub fn new() -> (agent: Self)
        ensures
            agent == (OllamaAgent {}),
    {
        Self {}
    }
}

/// The backend for a chat-completion API: the credentials it was made with
/// and the identifier of the model that it asks.
#[derive(Debug)]
pub struct Claude3agent {
    apikey: String,
    url: String,
    model: String,
}

impl Claude3agent {
    /// Every backend names its model.
    #[verifier::type_invariant]
    spec fn well_formed(self) -> bool {
        self.model@.len() > 0
    }

    /// The API key.
    pub closed spec fn spec_apikey(&self) -> Seq<char> {
        self.apikey@
    }

    /// The address of the endpoint.
    pub closed spec fn spec_url(&self) -> Seq<char> {
        self.url@
    }

    /// The identifier of the model that is asked.
    pub closed spec fn spec_model(&self) -> Seq<char> {
        self.model@
    }

    /// Makes a backend of the settings that the caller could get: the API
    /// key, the address of the endpoint and the identifier of the model to
    /// ask. What is missing is reported in that order; a model without a
    /// name is missing.
    pub fn new(
        apikey: Result<String, VarError>,
        url: Result<String, VarError>,
        model: Result<String, VarError>,
    ) -> (r: Result<Self, AISummaryError>)
        ensures
            match (apikey, url, model) {
                (Err(cause), _, _) => r == Err::<Self, AISummaryError>(
                    AISummaryError::NoAPIKey(cause),
                ),
                (Ok(_), Err(cause), _) => r == Err::<Self, AISummaryError>(
                    AISummaryError::NoAPIURL(cause),
                ),
                (Ok(_), Ok(_), Err(cause)) => r == Err::<Self, AISummaryError>(
                    AISummaryError::NoModel(cause),
                ),
                (Ok(key), Ok(address), Ok(name)) => if name@.len() == 0 {
                    r == Err::<Self, AISummaryError>(AISummaryError::NoModel(VarError::NotPresent))
                } else {
                    &&& r matches Ok(agent)
                    &&& agent.spec_apikey() == key@
                    &&& agent.spec_url() == address@
                    &&& agent.spec_model() == name@
                },
            },
    {
        let apikey = match apikey {
            Ok(key) => key,
            Err(cause) => { return Err(AISummaryError::NoAPIKey(cause)); },
        };
        let url = match url {
            Ok(address) => address,
            Err(cause) => { return Err(AISummaryError::NoAPIURL(cause)); },
        };
        let model = match model {
            Ok(name) => name,
            Err(cause) => { return Err(AISummaryError::NoModel(cause)); },
        };
        if model.as_str().is_empty() {
            return Err(AISummaryError::NoModel(VarError::NotPresent));
        }
        Ok(Self { apikey, url, model })
    }

    /// The API key.
    pub fn apikey(&self) -> (apikey: &str)
        ensures
            apikey@ == self.spec_apikey(),
    {
        self.apikey.as_str()
    }

    /// The address of the endpoint.
    pub fn url(&self) -> (url: &str)
        ensures
            url@ == self.spec_url(),
    {
        self.url.as_str()
    }

    /// The identifier of the model that is asked. It is never empty.
    pub fn model(&self) -> (model: &str)
        ensures
            model@ == self.spec_model(),
            model@.len() > 0,
    {
        proof {
            use_type_invariant(self);
        }
        self.model.as_str()
    }

    /// Summarizes `content` as `fetch` does, for a caller that has checked
    /// the credentials by a rule of its own and hands in the verdict. Where
    /// the verdict rejects them, the exchange fails with that cause before
    /// anything is built or sent; where it accepts them, `fetch`'s own check
    /// still decides.
    pub fn fetch_checked<F: FnOnce(SummaryRequest) -> Exchange<Claude3respose>>(
        &self,
        verdict: Result<(), InvalidHeaderValue>,
        content: String,
        deadline: Option<Duration>,
        transport: F,
    ) -> (r: Result<Claude3respose, AISummaryError>)
        requires
            verdict is Ok && self.credentials_allowed() ==> forall|request: SummaryRequest|
                self.asks(content@, deadline, request) ==> call_requires(transport, (request,)),
        ensures
            verdict matches Err(cause) ==> r == Err::<Claude3respose, AISummaryError>(
                AISummaryError::FetchFailed(ClientError::InsertHeaderFailed(cause)),
            ),
            verdict is Ok && !self.credentials_allowed() ==> r matches Err(
                AISummaryError::FetchFailed(ClientError::InsertHeaderFailed(_)),
            ),
            verdict is Ok && self.credentials_allowed() ==> {
                ||| r matches Err(AISummaryError::FetchFailed(ClientError::FetchFailed(_)))
                ||| exists|request: SummaryRequest, reported: Exchange<Claude3respose>|
                    {
                        &&& self.asks(content@, deadline, request)
                        &&& #[trigger] call_ensures(transport, (request,), reported)
                        &&& reported.settles(r)
                    }
            },
    {
        if let Err(cause) = verdict {
            return Err(AISummaryError::FetchFailed(ClientError::InsertHeaderFailed(cause)));
        }
        let headers = match api_header_map(self.apikey.as_str()) {
            Ok(headers) => headers,
            Err(cause) => {
                return Err(AISummaryError::FetchFailed(ClientError::InsertHeaderFailed(cause)));
            },
        };
        let client = match build_client(&headers) {
            Ok(client) => client,
            Err(cause) => {
                return Err(AISummaryError::FetchFailed(ClientError::FetchFailed(cause)));
            },
        };
        let body = self.build_body(content);
        let request = SummaryRequest { client, headers, url: self.url.clone(), body, deadline };
        assert(self.asks(content@, deadline, request));
        let reported = transport(request);
        reported.into_result()
    }
}

impl AISummary<Claude3respose> for Claude3agent {
    open spec fn body_model(&self, content: Seq<char>) -> RequestBodyView {
        RequestBodyView {
            model: self.spec_model(),
            system: INSTRUCTION@,
            max_tokens: MAX_TOKENS,
            messages: seq![MessageView { role: USER_ROLE@, content }],
        }
    }

    open spec fn credentials_allowed(&self) -> bool {
        header_text_allowed(self.spec_apikey())
    }

    open spec fn asks(&self, content: Seq<char>, deadline: Option<Duration>, request: SummaryRequest) -> bool {
        &&& header_map_entries(request.headers) == api_headers(self.spec_apikey())
        &&& client_default_headers(request.client) == built_with(api_headers(self.spec_apikey()))
        &&& request.url@ == self.spec_url()
        &&& request.body@ == self.body_model(content)
        &&& request.deadline == deadline
    }

    fn fetch<F: FnOnce(SummaryRequest) -> Exchange<Claude3respose>>(
        &self,
        content: String,
        deadline: Option<Duration>,
        transport: F,
    ) -> (r: Result<Claude3respose, AISummaryError>)
    {
        self.fetch_checked(Ok(()), content, deadline, transport)
    }

    fn build_body(&self, content: String) -> (body: RequestBody)
        ensures
            body@.model.len() > 0,
            body@.system.len() > 0,
    {
        proof {
            use_type_invariant(self);
            reveal_strlit("can you summarize this as bullet point with english lang");
        }
        let mut messages: Vec<Message> = Vec::new();
        messages.push(Message { role: USER_ROLE.to_owned(), content });
        let body = RequestBody {
            model: self.model.clone(),
            system: INSTRUCTION.to_owned(),
            max_tokens: MAX_TOKENS,
            messages,
        };
        assert(body@.messages =~= seq![MessageView { role: USER_ROLE@, content: content@ }]);
        body
    }
}

/// A backend's payload depends on the backend and the text alone: any two
/// payloads that `build_body` returns for the same text are equal, field by
/// field.
pub proof fn lemma_build_body_is_a_function<T, B: AISummary<T>>(
    backend: B,
    content: Seq<char>,
    first: RequestBody,
    second: RequestBody,
)
    requires
        first@ == backend.body_model(content),
        second@ == backend.body_model(content),
    ensures
        first@ == second@,
{
}

/// The payload of the chat-completion backend carries the text whole and
/// unchanged, as its only message, under the user's role.
pub proof fn lemma_body_carries_content(agent: Claude3agent, content: Seq<char>)
    ensures
        agent.body_model(content).messages.len() == 1,
        agent.body_model(content).messages[0].role == USER_ROLE@,
        agent.body_model(content).messages[0].content == content,
        agent.body_model(content).model == agent.spec_model(),
        agent.body_model(content).system == INSTRUCTION@,
        agent.body_model(content).max_tokens == 1024,
{
}

/// Nothing of the text is lost in the payload: different texts give
/// different payloads.
pub proof fn lemma_body_tells_texts_apart(agent: Claude3agent, first: Seq<char>, second: Seq<char>)
    requires
        agent.body_model(first) == agent.body_model(second),
    ensures
        first == second,
{
    assert(agent.body_model(first).messages[0].content == first);
    assert(agent.body_model(second).messages[0].content == second);
}

} // verus!
