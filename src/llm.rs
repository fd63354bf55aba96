//! The completion client: which provider a model is served by, where its
//! endpoint is, which credential it needs, and the fixed sampling policy.

use vstd::prelude::*;
use vstd::string::*;
use crate::adapter::{
    ChatRequest, ProviderResponse, body_is, build_request, emitted, expected_headers,
    header_pairs, message_result_view, parse_response, parsed, policy_emitted, sendable,
};
use crate::error::{Error, ErrorView, result_view};
use crate::model::{Message, MessageView, Tool};
use crate::text::{blank, is_blank, same_text};

verus! {

/// The backends a model can be served by.
#[derive(Clone, Copy, Debug, PartialEq, Eq, Structural)]
pub enum Provider {
    /// A local model server.
    Local,
    /// A hosted API in the OpenAI shape.
    OpenAi,
    /// A hosted API in the Anthropic shape.
    Anthropic,
}

/// The configuration inputs, read once when a client is made.
pub struct Settings {
    /// The provider to use, where the configuration names one.
    pub provider: Option<Provider>,
    /// The local server's base URL.
    pub ollama_api_url: Option<String>,
    pub openai_api_key: Option<String>,
    pub anthropic_api_key: Option<String>,
}

/// What a client is bound to: the model, its provider, the endpoint and the
/// credential.
pub ghost struct ProviderConfig {
    pub model: Seq<char>,
    pub provider: Provider,
    pub endpoint: Seq<char>,
    pub credential: Option<Seq<char>>,
}

/// A client for one model. Its configuration is fixed when it is made.
pub struct LLMClient {
    model: String,
    provider: Provider,
    api_url: String,
    api_key: Option<String>,
}

impl View for LLMClient {
    type V = ProviderConfig;

    closed spec fn view(&self) -> ProviderConfig {
        ProviderConfig {
            model: self.model@,
            provider: self.provider,
            endpoint: self.api_url@,
            credential: crate::model::text_view(self.api_key),
        }
    }
}

pub const OLLAMA_DEFAULT_URL: &'static str = "http://localhost:11434";

pub const OPENAI_URL: &'static str = "https://api.openai.com/v1/chat/completions";

pub const ANTHROPIC_URL: &'static str = "https://api.anthropic.com/v1/messages";

/// The provider the configuration names; else the hosted OpenAI API for its
/// own models, and the local server for any other.
pub open spec fn provider_of(model: Seq<char>, configured: Option<Provider>) -> Provider {
    match configured {
        Some(p) => p,
        None => if model == "gpt-3.5-turbo"@ || model == "gpt-4"@ {
            Provider::OpenAi
        } else {
            Provider::Local
        },
    }
}

pub open spec fn endpoint_of(provider: Provider, ollama_url: Option<Seq<char>>) -> Seq<char> {
    match provider {
        Provider::OpenAi => OPENAI_URL@,
        Provider::Anthropic => ANTHROPIC_URL@,
        Provider::Local => match ollama_url {
            Some(base) => base + "/api/chat"@,
            None => OLLAMA_DEFAULT_URL@ + "/api/chat"@,
        },
    }
}

pub open spec fn credential_of(provider: Provider, s: Settings) -> Option<Seq<char>> {
    match provider {
        Provider::OpenAi => crate::model::text_view(s.openai_api_key),
        Provider::Anthropic => crate::model::text_view(s.anthropic_api_key),
        Provider::Local => None,
    }
}

/// What making a client for `model` under `settings` gives.
pub open spec fn configured(model: Seq<char>, s: Settings) -> Result<ProviderConfig, ErrorView> {
    let provider = provider_of(model, s.provider);
    if is_blank(model) {
        Err(ErrorView::EmptyModelName)
    } else if provider != Provider::Local && credential_of(provider, s) is None {
        Err(ErrorView::InvalidProvider)
    } else {
        Ok(
            ProviderConfig {
                model,
                provider,
                endpoint: endpoint_of(provider, crate::model::text_view(s.ollama_api_url)),
                credential: credential_of(provider, s),
            },
        )
    }
}

pub open spec fn client_view(r: Result<LLMClient, Error>) -> Result<ProviderConfig, ErrorView> {
    match r {
        Ok(c) => Ok(c@),
        Err(e) => Err(e@),
    }
}

fn copy_text(s: &Option<String>) -> (r: Option<String>)
    ensures
        crate::model::text_view(r) == crate::model::text_view(*s),
{
    match s {
        Some(t) => Some(t.clone()),
        None => None,
    }
}

fn choose_provider(model: &str, configured: Option<Provider>) -> (r: Provider)
    ensures
        r == provider_of(model@, configured),
{
    match configured {
        Some(p) => p,
        None => if same_text(model, "gpt-3.5-turbo") || same_text(model, "gpt-4") {
            Provider::OpenAi
        } else {
            Provider::Local
        },
    }
}

impl LLMClient {
    /// Makes a client for `model`: the model must not be blank, and a hosted
    /// provider needs its credential.
    pub fn new(model: &str, settings: &Settings) -> (r: Result<Self, Error>)
        ensures
            client_view(r) == configured(model@, *settings),
    {
        if blank(model) {
            return Err(Error::EmptyModelName);
        }
        let provider = choose_provider(model, settings.provider);
        let api_key = match provider {
            Provider::OpenAi => copy_text(&settings.openai_api_key),
            Provider::Anthropic => copy_text(&settings.anthropic_api_key),
            Provider::Local => None,
        };
        if provider != Provider::Local && api_key.is_none() {
            return Err(Error::InvalidProvider);
        }
        let api_url = match provider {
            Provider::OpenAi => String::from_str(OPENAI_URL),
            Provider::Anthropic => String::from_str(ANTHROPIC_URL),
            Provider::Local => {
                let mut url = match &settings.ollama_api_url {
                    Some(base) => base.clone(),
                    None => String::from_str(OLLAMA_DEFAULT_URL),
                };
                url.append("/api/chat");
                url
            },
        };
        let r = LLMClient { model: String::from_str(model), provider, api_url, api_key };
        assert(r@ == configured(model@, *settings)->Ok_0);
        Ok(r)
    }

    /// Builds this client's request for a conversation, with tools when they
    /// are offered.
    pub fn chat_request<'a>(&self, messages: &'a [Message], tools: Option<&'a [Tool]>) -> (r:
        Result<ChatRequest<'a>, Error>)
        ensures
            r is Ok <==> sendable(messages@),
            r is Err ==> r->Err_0 == Error::EmptyMessages,
            r is Ok ==> {
                let q = r->Ok_0;
                &&& q.url@ == self@.endpoint
                &&& header_pairs(q.headers@) == expected_headers(self@.provider, self@.credential)
                &&& body_is(q.body, self@.provider, self@.model, crate::model::messages_view(messages@), tools)
                &&& emitted(q.body) == policy_emitted(self@.provider, tools is Some)
            },
    {
        build_request(
            self.provider,
            self.model.as_str(),
            self.api_url.as_str(),
            &self.api_key,
            messages,
            tools,
        )
    }

    /// Turns what came back for a request into the provider's message.
    pub fn complete(&self, reply: Reply) -> (r: Result<Message, Error>)
        ensures
            message_result_view(r) == completed(self@.provider, reply),
    {
        match reply {
            Reply::TransportFailed(m) => Err(Error::RequestFailed(m)),
            Reply::Received { status, body, decoded } => {
                if status < 200 || status >= 300 {
                    Err(Error::ApiError { status, body })
                } else {
                    match decoded {
                        Ok(d) => parse_response(self.provider, d),
                        Err(m) => Err(Error::ParseError(m)),
                    }
                }
            },
        }
    }

    /// The text of the provider's message, without its tool calls.
    pub fn complete_text(&self, reply: Reply) -> (r: Result<String, Error>)
        ensures
            result_view(r) == text_of(completed(self@.provider, reply)),
    {
        match self.complete(reply) {
            Ok(m) => Ok(
                match m.content {
                    Some(c) => c,
                    None => String::new(),
                },
            ),
            Err(e) => Err(e),
        }
    }

    pub fn model(&self) -> (r: &String)
        ensures
            r@ == self@.model,
    {
        &self.model
    }

    pub fn provider(&self) -> (r: Provider)
        ensures
            r == self@.provider,
    {
        self.provider
    }

    pub fn api_url(&self) -> (r: &String)
        ensures
            r@ == self@.endpoint,
    {
        &self.api_url
    }
}

/// What came back for a request: a transport failure, or a status with the
/// body as received and as decoded into the provider's shape.
pub enum Reply {
    TransportFailed(String),
    Received { status: u16, body: String, decoded: Result<ProviderResponse, String> },
}

pub open spec fn is_success(status: u16) -> bool {
    200 <= status < 300
}

/// What a completion gives for a reply.
pub open spec fn completed(provider: Provider, reply: Reply) -> Result<MessageView, ErrorView> {
    match reply {
        Reply::TransportFailed(m) => Err(ErrorView::RequestFailed(m@)),
        Reply::Received { status, body, decoded } => if !is_success(status) {
            Err(ErrorView::ApiError { status, body: body@ })
        } else {
            match decoded {
                Ok(d) => parsed(provider, d),
                Err(m) => Err(ErrorView::ParseError(m@)),
            }
        },
    }
}

/// A message's content, empty where it has none.
pub open spec fn text_of(r: Result<MessageView, ErrorView>) -> Result<Seq<char>, ErrorView> {
    match r {
        Ok(m) => Ok(
            match m.content {
                Some(c) => c,
                None => Seq::empty(),
            },
        ),
        Err(e) => Err(e),
    }
}

} // verus!
