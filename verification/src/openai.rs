//! The transport every group of endpoints shares: the credential, the base
//! address, and the four primitive operations.

use vstd::prelude::*;
use vstd::string::*;
use crate::error_handling::{Category, OpenAIError, OpenAIResult};
use crate::openai_api::assistants::AssistantsApi;
use crate::openai_api::audio::AudioApi;
use crate::openai_api::client::ClientApi;
use crate::openai_api::completion::CompletionsApi;
use crate::openai_api::embeddings::EmbeddingsApi;
use crate::openai_api::fine_tuning::FineTuningApi;
use crate::openai_api::images::ImagesApi;
use crate::openai_api::moderations::ModerationApi;
use crate::openai_api::threads::ThreadsApi;
use crate::openai_api::vectors::VectorsApi;
use crate::request::{request_view, Body, BodyView, Method, MultipartForm, Request, RequestView};

verus! {

/// Whether `serde_json::from_slice` reads `body` as one JSON value.
pub uninterp spec fn body_parses(body: Seq<u8>) -> bool;

/// The JSON value that `serde_json::from_slice` reads from `body`, where it
/// reads one.
pub uninterp spec fn body_value(body: Seq<u8>) -> serde_json::Value;

/// Calls `serde_json::from_slice` at type `serde_json::Value`. The call
/// succeeds exactly on the bodies that `body_parses` names, and then hands
/// back the value that `body_value` names.
#[verifier::external_body]
fn read_body(body: &[u8]) -> (r: Result<serde_json::Value, serde_json::Error>)
    ensures
        r.is_ok() == body_parses(body@),
        r matches Ok(v) ==> v == body_value(body@),
{
    serde_json::from_slice::<serde_json::Value>(body)
}

/// The base address used where none is given.
pub open spec fn default_base_url() -> Seq<char> {
    "https://api.openai.com/v1"@
}

/// The value of the credential header for the key `api_key`.
pub open spec fn bearer(api_key: Seq<char>) -> Seq<char> {
    "Bearer "@ + api_key
}

/// Decodes the body of a response. Any body that reads as JSON is a
/// response, whatever the status it came with, and the result is the value
/// read from it; any other body is an encoding failure.
pub fn decode(body: &[u8]) -> (r: OpenAIResult<serde_json::Value>)
    ensures
        r.is_ok() == body_parses(body@),
        r matches Ok(v) ==> v == body_value(body@),
        r matches Err(e) ==> e.spec_category() == Category::Encoding,
{
    match read_body(body) {
        Ok(value) => Ok(value),
        Err(e) => Err(OpenAIError::from(e)),
    }
}

/// Turns the outcome of an exchange into the result of the call: a failed
/// exchange is a transport failure with that cause, a body that arrived is
/// decoded.
pub fn conclude(outcome: Result<Vec<u8>, reqwest::Error>) -> (r: OpenAIResult<serde_json::Value>)
    ensures
        match outcome {
            Ok(body) => {
                &&& r.is_ok() == body_parses(body@)
                &&& r matches Ok(v) ==> v == body_value(body@)
                &&& r matches Err(e) ==> e.spec_category() == Category::Encoding
            },
            Err(cause) => r == Err::<serde_json::Value, OpenAIError>(
                OpenAIError::ReqwestError(cause),
            ),
        },
{
    match outcome {
        Ok(body) => decode(body.as_slice()),
        Err(cause) => Err(OpenAIError::from(cause)),
    }
}

/// The credential and the base address.
pub struct OpenAI {
    authorization: String,
    pub(crate) base_url: String,
}

impl OpenAI {
    /// The value of the credential header.
    pub closed spec fn authorization(&self) -> Seq<char> {
        self.authorization@
    }

    /// The base address.
    pub closed spec fn base(&self) -> Seq<char> {
        self.base_url@
    }

    /// The request that `method` makes to `path` under the base address,
    /// with the body `body`.
    pub open spec fn spec_request(&self, method: Method, path: Seq<char>, body: BodyView)
        -> RequestView {
        request_view(method, self.base() + path, self.authorization(), body)
    }

    /// A transport for the key `api_key`. An empty `base_url` stands for the
    /// default base address.
    pub fn new(api_key: &str, base_url: &str) -> (r: Self)
        ensures
            r.authorization() == bearer(api_key@),
            r.base() == if base_url@.len() == 0 {
                default_base_url()
            } else {
                base_url@
            },
    {
        let mut authorization = String::from_str("Bearer ");
        authorization.append(api_key);
        let base: &str = if base_url.is_empty() {
            "https://api.openai.com/v1"
        } else {
            base_url
        };
        OpenAI { authorization, base_url: String::from_str(base) }
    }

    fn address(&self, path: &str) -> (r: String)
        ensures
            r@ == self.base() + path@,
    {
        let mut url = self.base_url.clone();
        url.append(path);
        url
    }

    /// A retrieval of `url`, which is relative to the base address.
    pub fn get(&self, url: &str) -> (r: Request)
        ensures
            r@ == self.spec_request(Method::Get, url@, BodyView::Empty),
    {
        Request::new(Method::Get, self.address(url), self.authorization.as_str(), Body::Empty)
    }

    /// A submission of the JSON text `body` to `url`, which is relative to
    /// the base address.
    pub fn post_json(&self, url: &str, body: String) -> (r: Request)
        ensures
            r@ == self.spec_request(Method::Post, url@, BodyView::Json(body@)),
    {
        Request::new(
            Method::Post,
            self.address(url),
            self.authorization.as_str(),
            Body::Json(body),
        )
    }

    /// A submission of the multipart form `form` to `url`, which is relative
    /// to the base address.
    pub fn post_form(&self, url: &str, form: MultipartForm) -> (r: Request)
        ensures
            r@ == self.spec_request(Method::Post, url@, BodyView::Multipart(form@)),
    {
        Request::new(
            Method::Post,
            self.address(url),
            self.authorization.as_str(),
            Body::Multipart(form),
        )
    }

    /// A deletion of `url`, which is relative to the base address.
    pub fn delete(&self, url: &str) -> (r: Request)
        ensures
            r@ == self.spec_request(Method::Delete, url@, BodyView::Empty),
    {
        Request::new(Method::Delete, self.address(url), self.authorization.as_str(), Body::Empty)
    }

    /// The base address.
    pub fn get_base_url(&self) -> (r: &str)
        ensures
            r@ == self.base(),
    {
        self.base_url.as_str()
    }

    /// Replaces the base address. The credential stays.
    pub fn set_base_url(&mut self, base_url: &str)
        ensures
            final(self).base() == base_url@,
            final(self).authorization() == old(self).authorization(),
    {
        self.base_url = String::from_str(base_url);
    }

    /// The endpoints that list models, on this transport.
    pub fn client(&self) -> (api: ClientApi<'_>)
        ensures
            api.0 == self,
    {
        ClientApi(self)
    }

    /// The chat completion endpoint, on this transport.
    pub fn completions(&self) -> (api: CompletionsApi<'_>)
        ensures
            api.0 == self,
    {
        CompletionsApi(self)
    }

    /// The audio endpoints, on this transport.
    pub fn audio(&self) -> (api: AudioApi<'_>)
        ensures
            api.0 == self,
    {
        AudioApi(self)
    }

    /// The image endpoints, on this transport.
    pub fn images(&self) -> (api: ImagesApi<'_>)
        ensures
            api.0 == self,
    {
        ImagesApi(self)
    }

    /// The fine-tuning endpoints, on this transport.
    pub fn fine_tuning(&self) -> (api: FineTuningApi<'_>)
        ensures
            api.0 == self,
    {
        FineTuningApi(self)
    }

    /// The moderation endpoint, on this transport.
    pub fn moderation(&self) -> (api: ModerationApi<'_>)
        ensures
            api.0 == self,
    {
        ModerationApi(self)
    }

    /// The embeddings endpoint, on this transport.
    pub fn embeddings(&self) -> (api: EmbeddingsApi<'_>)
        ensures
            api.0 == self,
    {
        EmbeddingsApi(self)
    }

    /// The assistants endpoints, on this transport.
    pub fn assistants(&self) -> (api: AssistantsApi<'_>)
        ensures
            api.0 == self,
    {
        AssistantsApi(self)
    }

    /// The threads endpoints, on this transport.
    pub fn threads(&self) -> (api: ThreadsApi<'_>)
        ensures
            api.0 == self,
    {
        ThreadsApi(self)
    }

    /// The vector store endpoints, on this transport.
    pub fn vectors(&self) -> (api: VectorsApi<'_>)
        ensures
            api.0 == self,
    {
        VectorsApi(self)
    }
}

/// A request made after the base address was replaced goes to the new
/// address, with the same credential; a request made before it keeps the
/// address it was made with.
pub proof fn lemma_base_url_change(
    before: OpenAI,
    after: OpenAI,
    base_url: Seq<char>,
    method: Method,
    path: Seq<char>,
    body: BodyView,
)
    requires
        after.base() == base_url,
        after.authorization() == before.authorization(),
    ensures
        after.spec_request(method, path, body).url == base_url + path,
        after.spec_request(method, path, body) == request_view(
            method,
            base_url + path,
            before.authorization(),
            body,
        ),
        before.spec_request(method, path, body).url == before.base() + path,
{
}

} // verus!
