//! Provider protocols: the request each one sends and how its reply is read.
//!
//! A provider here holds what its protocol needs (key, model, base URL).  The
//! caller sends the [`HttpRequest`] that a provider builds, and hands back the
//! status, the `retry-after` header and the body it received.

pub mod anthropic;
pub mod gemini;
pub mod ollama;
pub mod openai;

use vstd::prelude::*;
use vstd::string::StringExecFns;

use crate::config::{ProviderConfig, ProviderConfigV, ProviderType};
use crate::error::{ProviderError, ProviderErrorV};
use crate::json::{json_text, to_text, Json, JsonV};
use crate::models::conversation::{Conversation, ConversationV};
use crate::models::response::{LlmResponse, LlmResponseV};
use crate::providers::anthropic::{anthropic_base_url, anthropic_request, anthropic_response, AnthropicProvider};
use crate::providers::gemini::{gemini_base_url, gemini_request, gemini_response, GeminiProvider};
use crate::providers::ollama::{ollama_base_url, ollama_request, ollama_response, OllamaProvider, OllamaV};
use crate::providers::openai::{openai_base_url, openai_request, openai_response, OpenAiProvider};
use crate::text::parse_u64_spec;

verus! {

/// The model of a provider that authenticates with a key.
pub struct ProviderSettingsV {
    pub api_key: Seq<char>,
    pub model: Seq<char>,
    pub base_url: Seq<char>,
}

/// An HTTP POST request with a JSON body.
pub struct HttpRequest {
    /// The full URL.
    pub url: String,
    /// Header names and values, in the order they are set.
    pub headers: Vec<(String, String)>,
    /// The JSON body.
    pub body: Json,
}

/// The model of an [`HttpRequest`].
pub struct HttpRequestV {
    pub url: Seq<char>,
    pub headers: Seq<(Seq<char>, Seq<char>)>,
    pub body: JsonV,
}

/// The models of a sequence of headers.
pub open spec fn headers_view(h: Seq<(String, String)>) -> Seq<(Seq<char>, Seq<char>)> {
    h.map_values(|p: (String, String)| (p.0@, p.1@))
}

impl View for HttpRequest {
    type V = HttpRequestV;

    open spec fn view(&self) -> HttpRequestV {
        HttpRequestV { url: self.url@, headers: headers_view(self.headers@), body: self.body@ }
    }
}

impl HttpRequest {
    /// The body as compact JSON text.
    pub fn body_text(&self) -> (r: String)
        ensures
            r@ == json_text(self@.body),
    {
        to_text(&self.body)
    }
}

/// Appends a header.
pub fn push_header(h: &mut Vec<(String, String)>, name: &str, value: &str)
    ensures
        headers_view(final(h)@) == headers_view(old(h)@).push((name@, value@)),
{
    h.push((String::from_str(name), String::from_str(value)));
    assert(headers_view(h@) =~= headers_view(old(h)@).push((name@, value@)));
}

/// The header that a JSON body is sent with.
pub fn json_content_type() -> (h: Vec<(String, String)>)
    ensures
        headers_view(h@) == seq![("content-type"@, "application/json"@)],
{
    let mut h: Vec<(String, String)> = Vec::new();
    push_header(&mut h, "content-type", "application/json");
    assert(headers_view(h@) =~= seq![("content-type"@, "application/json"@)]);
    h
}

/// Whether an HTTP status is a success (2xx).
pub open spec fn is_success_spec(status: u16) -> bool {
    200 <= status <= 299
}

/// Whether an HTTP status is a success (2xx).
pub fn is_success_status(status: u16) -> (r: bool)
    ensures
        r == is_success_spec(status),
{
    200 <= status && status <= 299
}

/// The seconds a `retry-after` header asks for: its text read as a decimal
/// `u64`, nothing when the header is absent or is not such a number.
pub open spec fn retry_after_spec(header: Option<Seq<char>>) -> Option<u64> {
    match header {
        Some(t) => parse_u64_spec(t),
        None => None,
    }
}

/// The seconds a `retry-after` header asks for.
pub fn parse_retry_after(header: Option<&str>) -> (r: Option<u64>)
    ensures
        r == retry_after_spec(
            match header {
                Some(t) => Some(t@),
                None => None,
            },
        ),
{
    match header {
        Some(t) => crate::text::parse_u64(t),
        None => None,
    }
}

/// The error for a reply whose status is not a success.
pub fn http_error(status: u16, body: String, retry_after: Option<u64>) -> (e: ProviderError)
    ensures
        e@ == (ProviderErrorV::Http { status, body: body@, retry_after }),
{
    ProviderError::Http { status, body, retry_after }
}

/// A token count as the providers report it, cut to 32 bits as `as u32` does.
pub open spec fn token_count(v: Option<u64>) -> Option<u32> {
    match v {
        Some(n) => Some(n as u32),
        None => None,
    }
}

/// Cuts an optional token count to 32 bits.
pub fn to_token_count(v: Option<u64>) -> (r: Option<u32>)
    ensures
        r == token_count(v),
{
    match v {
        Some(n) => Some(n as u32),
        None => None,
    }
}

/// The `provider/model` key used for cooldown tracking.
pub open spec fn entry_key_spec(provider: Seq<char>, model: Seq<char>) -> Seq<char> {
    provider + "/"@ + model
}

/// Joins a provider name and a model into the cooldown key `provider/model`.
pub fn make_entry_key(provider: &str, model: &str) -> (r: String)
    ensures
        r@ == entry_key_spec(provider@, model@),
{
    let mut r = String::from_str(provider);
    r.append("/");
    r.append(model);
    r
}

/// A base URL without its trailing slashes, then `path`.
pub open spec fn endpoint(base_url: Seq<char>, path: Seq<char>) -> Seq<char> {
    crate::text::trim_end_char(base_url, '/') + path
}

/// `base_url` without its trailing slashes, then `path`.
pub fn make_endpoint(base_url: &str, path: &str) -> (r: String)
    ensures
        r@ == endpoint(base_url@, path@),
{
    let mut r = crate::text::trim_end_matches_char(base_url, '/');
    r.append(path);
    r
}

/// An optional base URL, or `default` when none is given.
pub fn base_url_or(base_url: Option<String>, default: &str) -> (r: String)
    ensures
        r@ == match base_url {
            Some(u) => u@,
            None => default@,
        },
{
    match base_url {
        Some(u) => u,
        None => String::from_str(default),
    }
}


/// A provider of any of the supported protocols.
pub enum Provider {
    Openai(OpenAiProvider),
    Anthropic(AnthropicProvider),
    Gemini(GeminiProvider),
    Ollama(OllamaProvider),
}

/// The model of a [`Provider`].
pub enum ProviderV {
    Openai(ProviderSettingsV),
    Anthropic(ProviderSettingsV),
    Gemini(ProviderSettingsV),
    Ollama(OllamaV),
}

impl View for Provider {
    type V = ProviderV;

    open spec fn view(&self) -> ProviderV {
        match self {
            Provider::Openai(p) => ProviderV::Openai(p@),
            Provider::Anthropic(p) => ProviderV::Anthropic(p@),
            Provider::Gemini(p) => ProviderV::Gemini(p@),
            Provider::Ollama(p) => ProviderV::Ollama(p@),
        }
    }
}

/// The request a provider sends for a conversation.
pub open spec fn provider_request(p: ProviderV, c: ConversationV) -> HttpRequestV {
    match p {
        ProviderV::Openai(s) => openai_request(s, c),
        ProviderV::Anthropic(s) => anthropic_request(s, c),
        ProviderV::Gemini(s) => gemini_request(s, c),
        ProviderV::Ollama(s) => ollama_request(s, c),
    }
}

/// The response a provider reads from a successful reply body.
pub open spec fn provider_response(p: ProviderV, data: JsonV) -> LlmResponseV {
    match p {
        ProviderV::Openai(s) => openai_response(s.model, data),
        ProviderV::Anthropic(s) => anthropic_response(s.model, data),
        ProviderV::Gemini(s) => gemini_response(s.model, data),
        ProviderV::Ollama(s) => ollama_response(s.model, data),
    }
}

/// The name of a provider's protocol.
pub open spec fn provider_name_spec(p: ProviderV) -> Seq<char> {
    match p {
        ProviderV::Openai(_) => "openai"@,
        ProviderV::Anthropic(_) => "anthropic"@,
        ProviderV::Gemini(_) => "gemini"@,
        ProviderV::Ollama(_) => "ollama"@,
    }
}

/// The model a provider talks to.
pub open spec fn provider_model(p: ProviderV) -> Seq<char> {
    match p {
        ProviderV::Openai(s) => s.model,
        ProviderV::Anthropic(s) => s.model,
        ProviderV::Gemini(s) => s.model,
        ProviderV::Ollama(s) => s.model,
    }
}

/// The default base URL of a protocol.
pub open spec fn default_base_url(t: ProviderType) -> Seq<char> {
    match t {
        ProviderType::Openai => openai_base_url(),
        ProviderType::Anthropic => anthropic_base_url(),
        ProviderType::Gemini => gemini_base_url(),
        ProviderType::Ollama => ollama_base_url(),
    }
}

/// The provider that a configuration, a model and an API key make; Ollama
/// takes no key.
pub open spec fn provider_for(cfg: ProviderConfigV, model: Seq<char>, api_key: Seq<char>) -> ProviderV {
    let base_url = match cfg.base_url {
        Some(u) => u,
        None => default_base_url(cfg.provider_type),
    };
    match cfg.provider_type {
        ProviderType::Openai => ProviderV::Openai(ProviderSettingsV { api_key, model, base_url }),
        ProviderType::Anthropic => ProviderV::Anthropic(
            ProviderSettingsV { api_key, model, base_url },
        ),
        ProviderType::Gemini => ProviderV::Gemini(ProviderSettingsV { api_key, model, base_url }),
        ProviderType::Ollama => ProviderV::Ollama(OllamaV { model, base_url }),
    }
}

/// The body of a reply as the caller read it: the text of a failed reply, or
/// the outcome of reading a successful one as JSON.
pub enum ReplyBody {
    Text(String),
    Json(Result<Json, String>),
}

/// The model of a [`ReplyBody`].
pub enum ReplyBodyV {
    Text(Seq<char>),
    Json(Result<JsonV, Seq<char>>),
}

impl View for ReplyBody {
    type V = ReplyBodyV;

    open spec fn view(&self) -> ReplyBodyV {
        match self {
            ReplyBody::Text(t) => ReplyBodyV::Text(t@),
            ReplyBody::Json(Ok(j)) => ReplyBodyV::Json(Ok(j@)),
            ReplyBody::Json(Err(e)) => ReplyBodyV::Json(Err(e@)),
        }
    }
}

/// What a reply amounts to: an HTTP error for a status that is not a success
/// (with the body text and the `retry-after` seconds), a parse error when the
/// body could not be read as JSON, else the response the provider reads.
pub open spec fn reply_outcome(
    p: ProviderV,
    status: u16,
    retry_after: Option<u64>,
    body: ReplyBodyV,
) -> Result<LlmResponseV, ProviderErrorV> {
    if !is_success_spec(status) {
        Err(
            ProviderErrorV::Http {
                status,
                body: match body {
                    ReplyBodyV::Text(t) => t,
                    ReplyBodyV::Json(_) => Seq::empty(),
                },
                retry_after,
            },
        )
    } else {
        match body {
            ReplyBodyV::Json(Ok(data)) => Ok(provider_response(p, data)),
            ReplyBodyV::Json(Err(msg)) => Err(ProviderErrorV::Parse(msg)),
            ReplyBodyV::Text(_) => Err(ProviderErrorV::Parse(Seq::empty())),
        }
    }
}

/// The model of a reply outcome.
pub open spec fn outcome_view(r: Result<LlmResponse, ProviderError>) -> Result<
    LlmResponseV,
    ProviderErrorV,
> {
    match r {
        Ok(x) => Ok(x@),
        Err(e) => Err(e@),
    }
}

impl Provider {
    /// The provider that a configuration, a model and an API key make.
    pub fn from_config(cfg: &ProviderConfig, model: String, api_key: String) -> (p: Provider)
        ensures
            p@ == provider_for(cfg@, model@, api_key@),
    {
        let base_url = crate::config::copy_opt_string(&cfg.base_url);
        match cfg.provider_type {
            ProviderType::Openai => Provider::Openai(OpenAiProvider::new(api_key, model, base_url)),
            ProviderType::Anthropic => Provider::Anthropic(
                AnthropicProvider::new(api_key, model, base_url),
            ),
            ProviderType::Gemini => Provider::Gemini(GeminiProvider::new(api_key, model, base_url)),
            ProviderType::Ollama => Provider::Ollama(OllamaProvider::new(model, base_url)),
        }
    }

    /// The provider name (`openai`, `anthropic`, `gemini`, `ollama`).
    pub fn provider_name(&self) -> (r: &'static str)
        ensures
            r@ == provider_name_spec(self@),
    {
        match self {
            Provider::Openai(p) => p.provider_name(),
            Provider::Anthropic(p) => p.provider_name(),
            Provider::Gemini(p) => p.provider_name(),
            Provider::Ollama(p) => p.provider_name(),
        }
    }

    /// The model identifier.
    pub fn model_name(&self) -> (r: &str)
        ensures
            r@ == provider_model(self@),
    {
        match self {
            Provider::Openai(p) => p.model_name(),
            Provider::Anthropic(p) => p.model_name(),
            Provider::Gemini(p) => p.model_name(),
            Provider::Ollama(p) => p.model_name(),
        }
    }

    /// The `provider/model` key used for cooldown tracking.
    pub fn entry_key(&self) -> (r: String)
        ensures
            r@ == entry_key_spec(provider_name_spec(self@), provider_model(self@)),
    {
        make_entry_key(self.provider_name(), self.model_name())
    }

    /// The request that sends `conversation` to this provider.
    pub fn build_request(&self, conversation: &Conversation) -> (r: HttpRequest)
        ensures
            r@ == provider_request(self@, conversation@),
    {
        match self {
            Provider::Openai(p) => p.build_request(conversation),
            Provider::Anthropic(p) => p.build_request(conversation),
            Provider::Gemini(p) => p.build_request(conversation),
            Provider::Ollama(p) => p.build_request(conversation),
        }
    }

    /// The response read from a successful reply body.
    pub fn parse_response(&self, data: &Json) -> (r: LlmResponse)
        ensures
            r@ == provider_response(self@, data@),
    {
        match self {
            Provider::Openai(p) => p.parse_response(data),
            Provider::Anthropic(p) => p.parse_response(data),
            Provider::Gemini(p) => p.parse_response(data),
            Provider::Ollama(p) => p.parse_response(data),
        }
    }

    /// What a reply amounts to (see [`reply_outcome`]).
    pub fn read_reply(&self, status: u16, retry_after_header: Option<&str>, body: ReplyBody) -> (r:
        Result<LlmResponse, ProviderError>)
        ensures
            outcome_view(r) == reply_outcome(
                self@,
                status,
                retry_after_spec(
                    match retry_after_header {
                        Some(t) => Some(t@),
                        None => None,
                    },
                ),
                body@,
            ),
    {
        let retry_after = parse_retry_after(retry_after_header);
        if !is_success_status(status) {
            let text = match body {
                ReplyBody::Text(t) => t,
                ReplyBody::Json(_) => String::new(),
            };
            return Err(http_error(status, text, retry_after));
        }
        match body {
            ReplyBody::Json(Ok(data)) => Ok(self.parse_response(&data)),
            ReplyBody::Json(Err(msg)) => Err(ProviderError::Parse(msg)),
            ReplyBody::Text(_) => Err(ProviderError::Parse(String::new())),
        }
    }
}

} // verus!
