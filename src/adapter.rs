//! The provider adapters: building each provider's request from the
//! canonical conversation, with the fixed sampling policy.

use vstd::prelude::*;
use vstd::string::*;
use crate::error::{Error, ErrorView};
use crate::llama::{OllamaChatMessage, OllamaChatResponse};
use crate::llm::Provider;
use crate::model::{
    Message, MessageView, Tool, ToolCall, calls_view, messages_view, plain_message, text_view,
};
use crate::text::same_text;

verus! {

/// A decimal number: `units / 10^scale`.
#[derive(Clone, Copy, Debug, PartialEq, Eq, Structural)]
pub struct Decimal {
    pub units: i64,
    pub scale: u32,
}

/// The generation parameters sent with every request.
#[derive(Clone, Copy, Debug, PartialEq, Eq, Structural)]
pub struct SamplingPolicy {
    pub temperature: Decimal,
    pub top_p: Decimal,
    pub seed: u64,
    pub max_tokens: u32,
}

pub const SEED: u64 = 42;

pub const MAX_TOKENS_PLAIN: u32 = 100;

pub const MAX_TOKENS_WITH_TOOLS: u32 = 1024;

pub const CONTEXT_WINDOW: u32 = 4096;

/// The fixed, deterministic policy: temperature zero and a constant seed, so
/// that one prompt gives one answer; more room to answer when tools are
/// offered.
pub open spec fn policy(provider: Provider, with_tools: bool) -> SamplingPolicy {
    SamplingPolicy {
        temperature: Decimal { units: 0, scale: 1 },
        top_p: if provider == Provider::Local {
            Decimal { units: 1, scale: 1 }
        } else {
            Decimal { units: 10, scale: 1 }
        },
        seed: SEED,
        max_tokens: if with_tools {
            MAX_TOKENS_WITH_TOOLS
        } else {
            MAX_TOKENS_PLAIN
        },
    }
}

pub fn sampling_policy(provider: Provider, with_tools: bool) -> (r: SamplingPolicy)
    ensures
        r == policy(provider, with_tools),
{
    SamplingPolicy {
        temperature: Decimal { units: 0, scale: 1 },
        top_p: if provider == Provider::Local {
            Decimal { units: 1, scale: 1 }
        } else {
            Decimal { units: 10, scale: 1 }
        },
        seed: SEED,
        max_tokens: if with_tools {
            MAX_TOKENS_WITH_TOOLS
        } else {
            MAX_TOKENS_PLAIN
        },
    }
}

/// The local server's sampling options.
#[derive(Clone, Copy, Debug, PartialEq, Eq, Structural)]
pub struct LocalOptions {
    pub temperature: Decimal,
    pub top_p: Decimal,
    pub seed: u64,
    pub num_ctx: u32,
    pub num_predict: u32,
}

/// One turn in the Anthropic shape.
pub struct AnthropicTurn {
    pub role: String,
    pub content: String,
}

/// A request body in one provider's shape.
#[allow(inconsistent_fields)]
pub enum RequestBody<'a> {
    Local {
        model: String,
        messages: &'a [Message],
        stream: bool,
        options: LocalOptions,
        tools: Option<&'a [Tool]>,
    },
    OpenAi {
        model: String,
        messages: &'a [Message],
        temperature: Decimal,
        top_p: Decimal,
        seed: u64,
        max_tokens: u32,
        stream: bool,
        tools: Option<&'a [Tool]>,
    },
    Anthropic {
        model: String,
        system: Option<String>,
        messages: Vec<AnthropicTurn>,
        max_tokens: u32,
        temperature: Decimal,
        top_p: Decimal,
    },
}

pub struct Header {
    pub name: String,
    pub value: String,
}

/// A POST request to a provider.
pub struct ChatRequest<'a> {
    pub url: String,
    pub headers: Vec<Header>,
    pub body: RequestBody<'a>,
}

/// The sampling fields that a body carries; the Anthropic shape has no seed.
pub ghost struct EmittedSampling {
    pub temperature: Decimal,
    pub top_p: Decimal,
    pub seed: Option<u64>,
    pub max_tokens: u32,
}

pub open spec fn emitted(b: RequestBody) -> EmittedSampling {
    match b {
        RequestBody::Local { options, .. } => EmittedSampling {
            temperature: options.temperature,
            top_p: options.top_p,
            seed: Some(options.seed),
            max_tokens: options.num_predict,
        },
        RequestBody::OpenAi { temperature, top_p, seed, max_tokens, .. } => EmittedSampling {
            temperature,
            top_p,
            seed: Some(seed),
            max_tokens,
        },
        RequestBody::Anthropic { temperature, top_p, max_tokens, .. } => EmittedSampling {
            temperature,
            top_p,
            seed: None,
            max_tokens,
        },
    }
}

/// The policy's fields as a body of that provider carries them.
pub open spec fn policy_emitted(provider: Provider, with_tools: bool) -> EmittedSampling {
    let p = policy(provider, with_tools);
    EmittedSampling {
        temperature: p.temperature,
        top_p: p.top_p,
        seed: if provider == Provider::Anthropic {
            None
        } else {
            Some(p.seed)
        },
        max_tokens: p.max_tokens,
    }
}

pub open spec fn header_pairs(hs: Seq<Header>) -> Seq<(Seq<char>, Seq<char>)> {
    hs.map_values(|h: Header| (h.name@, h.value@))
}

pub open spec fn expected_headers(provider: Provider, credential: Option<Seq<char>>) -> Seq<
    (Seq<char>, Seq<char>),
> {
    let json = seq![("Content-Type"@, "application/json"@), ("Accept"@, "application/json"@)];
    match credential {
        Some(k) => match provider {
            Provider::OpenAi => json.push(("Authorization"@, "Bearer "@ + k)),
            Provider::Anthropic => json.push(("x-api-key"@, k)).push(
                ("anthropic-version"@, "2023-06-01"@),
            ),
            Provider::Local => json,
        },
        None => json,
    }
}

pub open spec fn content_or_empty(m: MessageView) -> Seq<char> {
    match m.content {
        Some(c) => c,
        None => Seq::empty(),
    }
}

/// `next` after `acc`, with a blank line between them when `acc` is not empty.
pub open spec fn joined(acc: Seq<char>, next: Seq<char>) -> Seq<char> {
    if acc.len() == 0 {
        next
    } else {
        acc + "\n\n"@ + next
    }
}

pub open spec fn is_turn(m: MessageView) -> bool {
    m.role == "user"@ || m.role == "assistant"@
}

/// The system messages' contents, joined in order.
pub open spec fn system_text(ms: Seq<MessageView>) -> Seq<char>
    decreases ms.len(),
{
    if ms.len() == 0 {
        Seq::empty()
    } else {
        let rest = system_text(ms.drop_last());
        if ms.last().role == "system"@ {
            joined(rest, content_or_empty(ms.last()))
        } else {
            rest
        }
    }
}

/// The user and assistant turns' contents, joined in order into one turn.
pub open spec fn conversation_text(ms: Seq<MessageView>) -> Seq<char>
    decreases ms.len(),
{
    if ms.len() == 0 {
        Seq::empty()
    } else {
        let rest = conversation_text(ms.drop_last());
        if is_turn(ms.last()) {
            joined(rest, content_or_empty(ms.last()))
        } else {
            rest
        }
    }
}

/// What a request body holds for each provider.
pub open spec fn body_is(
    b: RequestBody,
    provider: Provider,
    model: Seq<char>,
    messages: Seq<MessageView>,
    tools: Option<&[Tool]>,
) -> bool {
    let p = policy(provider, tools is Some);
    match b {
        RequestBody::Local { model: m, messages: ms, stream, options, tools: ts } => {
            &&& provider == Provider::Local
            &&& m@ == model
            &&& messages_view(ms@) == messages
            &&& !stream
            &&& options == LocalOptions {
                temperature: p.temperature,
                top_p: p.top_p,
                seed: p.seed,
                num_ctx: CONTEXT_WINDOW,
                num_predict: p.max_tokens,
            }
            &&& ts == tools
        },
        RequestBody::OpenAi { model: m, messages: ms, temperature, top_p, seed, max_tokens, stream, tools: ts } => {
            &&& provider == Provider::OpenAi
            &&& m@ == model
            &&& messages_view(ms@) == messages
            &&& temperature == p.temperature
            &&& top_p == p.top_p
            &&& seed == p.seed
            &&& max_tokens == p.max_tokens
            &&& !stream
            &&& ts == tools
        },
        RequestBody::Anthropic { model: m, system, messages: turns, max_tokens, temperature, top_p } => {
            let mv = messages;
            &&& provider == Provider::Anthropic
            &&& m@ == model
            &&& text_view(system) == if system_text(mv).len() == 0 {
                None
            } else {
                Some(system_text(mv))
            }
            &&& turns@.len() == 1
            &&& turns@[0].role@ == "user"@
            &&& turns@[0].content@ == conversation_text(mv)
            &&& max_tokens == p.max_tokens
            &&& temperature == p.temperature
            &&& top_p == p.top_p
        },
    }
}

fn append_joined(acc: &mut String, next: &str)
    ensures
        final(acc)@ == joined(old(acc)@, next@),
{
    if acc.as_str().unicode_len() != 0 {
        acc.append("\n\n");
    }
    acc.append(next);
}

fn content_text(m: &Message) -> (r: &str)
    ensures
        r@ == content_or_empty(m@),
{
    match &m.content {
        Some(c) => c.as_str(),
        None => {
            proof { reveal_strlit(""); }
            ""
        },
    }
}

/// The system text and the single user turn of the Anthropic shape.
fn anthropic_parts(messages: &[Message]) -> (r: (String, String))
    ensures
        r.0@ == system_text(messages_view(messages@)),
        r.1@ == conversation_text(messages_view(messages@)),
{
    let mut system = String::new();
    let mut turn = String::new();
    let n = messages.len();
    let mut i: usize = 0;
    while i < n
        invariant
            n == messages@.len(),
            i <= n,
            system@ == system_text(messages_view(messages@.subrange(0, i as int))),
            turn@ == conversation_text(messages_view(messages@.subrange(0, i as int))),
        decreases n - i,
    {
        let m = &messages[i];
        let ghost before = messages_view(messages@.subrange(0, i as int));
        let ghost after = messages_view(messages@.subrange(0, i + 1));
        assert(after.drop_last() =~= before);
        assert(after.last() == m@);
        proof {
            reveal_strlit("system");
            reveal_strlit("user");
            reveal_strlit("assistant");
            assert("system"@.len() != "user"@.len());
            assert("system"@.len() != "assistant"@.len());
        }
        assert(conversation_text(after) == if is_turn(m@) {
            joined(conversation_text(before), content_or_empty(m@))
        } else {
            conversation_text(before)
        });
        if same_text(m.role.as_str(), "system") {
            append_joined(&mut system, content_text(m));
        } else if same_text(m.role.as_str(), "user") || same_text(m.role.as_str(), "assistant") {
            append_joined(&mut turn, content_text(m));
        }
        i = i + 1;
    }
    assert(messages@.subrange(0, n as int) =~= messages@);
    (system, turn)
}

fn header(name: &str, value: String) -> (r: Header)
    ensures
        r.name@ == name@,
        r.value@ == value@,
{
    Header { name: String::from_str(name), value }
}

fn headers_for(provider: Provider, credential: &Option<String>) -> (r: Vec<Header>)
    ensures
        header_pairs(r@) == expected_headers(provider, text_view(*credential)),
{
    let mut r: Vec<Header> = Vec::new();
    r.push(header("Content-Type", String::from_str("application/json")));
    r.push(header("Accept", String::from_str("application/json")));
    match credential {
        Some(k) => match provider {
            Provider::OpenAi => {
                let mut v = String::from_str("Bearer ");
                v.append(k.as_str());
                r.push(header("Authorization", v));
            },
            Provider::Anthropic => {
                r.push(header("x-api-key", k.clone()));
                r.push(header("anthropic-version", String::from_str("2023-06-01")));
            },
            Provider::Local => {},
        },
        None => {},
    }
    assert(header_pairs(r@) =~= expected_headers(provider, text_view(*credential)));
    r
}

/// Builds a provider's request for a conversation. An empty conversation is
/// refused; otherwise the body carries the fixed sampling policy, whatever
/// the conversation holds.
pub fn build_request<'a>(
    provider: Provider,
    model: &str,
    endpoint: &str,
    credential: &Option<String>,
    messages: &'a [Message],
    tools: Option<&'a [Tool]>,
) -> (r: Result<ChatRequest<'a>, Error>)
    ensures
        r is Ok <==> sendable(messages@),
        r is Err ==> r->Err_0 == Error::EmptyMessages,
        r is Ok ==> {
            let q = r->Ok_0;
            &&& q.url@ == endpoint@
            &&& header_pairs(q.headers@) == expected_headers(provider, text_view(*credential))
            &&& body_is(q.body, provider, model@, messages_view(messages@), tools)
            &&& emitted(q.body) == policy_emitted(provider, tools is Some)
        },
{
    if messages.len() == 0 {
        return Err(Error::EmptyMessages);
    }
    let p = sampling_policy(provider, tools.is_some());
    let body = match provider {
        Provider::Local => RequestBody::Local {
            model: String::from_str(model),
            messages,
            stream: false,
            options: LocalOptions {
                temperature: p.temperature,
                top_p: p.top_p,
                seed: p.seed,
                num_ctx: CONTEXT_WINDOW,
                num_predict: p.max_tokens,
            },
            tools,
        },
        Provider::OpenAi => RequestBody::OpenAi {
            model: String::from_str(model),
            messages,
            temperature: p.temperature,
            top_p: p.top_p,
            seed: p.seed,
            max_tokens: p.max_tokens,
            stream: false,
            tools,
        },
        Provider::Anthropic => {
            let (system, turn) = anthropic_parts(messages);
            let system = if system.as_str().unicode_len() == 0 {
                None
            } else {
                Some(system)
            };
            let mut turns: Vec<AnthropicTurn> = Vec::new();
            turns.push(AnthropicTurn { role: String::from_str("user"), content: turn });
            RequestBody::Anthropic {
                model: String::from_str(model),
                system,
                messages: turns,
                max_tokens: p.max_tokens,
                temperature: p.temperature,
                top_p: p.top_p,
            }
        },
    };
    Ok(ChatRequest { url: String::from_str(endpoint), headers: headers_for(provider, credential), body })
}

/// One choice of an OpenAI-shaped reply.
pub struct OpenAiChoice {
    pub message: Message,
}

/// An OpenAI-shaped reply.
pub struct OpenAiChatResponse {
    pub choices: Vec<OpenAiChoice>,
}

/// One content block of an Anthropic-shaped reply.
pub struct AnthropicContent {
    pub text: String,
}

/// An Anthropic-shaped reply.
pub struct AnthropicResponse {
    pub role: String,
    pub content: Vec<AnthropicContent>,
}

/// A reply body, decoded into the shape of the provider it came from.
pub enum ProviderResponse {
    Local(OllamaChatResponse),
    OpenAi(OpenAiChatResponse),
    Anthropic(AnthropicResponse),
}

pub open spec fn optional_calls_view(calls: Option<Vec<ToolCall>>) -> Option<Seq<crate::model::ToolCallView>> {
    match calls {
        Some(c) => Some(calls_view(c@)),
        None => None,
    }
}

pub open spec fn local_message(m: OllamaChatMessage) -> MessageView {
    MessageView {
        role: m.role@,
        content: Some(m.content@),
        tool_calls: optional_calls_view(m.tool_calls),
        tool_call_id: None,
        name: None,
    }
}

/// What a reply gives as the provider's message.
pub open spec fn parsed(provider: Provider, reply: ProviderResponse) -> Result<MessageView, ErrorView> {
    match reply {
        ProviderResponse::Local(r) => if provider != Provider::Local {
            Err(ErrorView::ParseError("Reply is not in the provider's shape"@))
        } else {
            match r {
                OllamaChatResponse::Success(s) => Ok(local_message(s.message)),
                OllamaChatResponse::Error { error } => Err(ErrorView::RequestFailed(error@)),
            }
        },
        ProviderResponse::OpenAi(o) => if provider != Provider::OpenAi {
            Err(ErrorView::ParseError("Reply is not in the provider's shape"@))
        } else if o.choices@.len() == 0 {
            Err(ErrorView::ParseError("No response choices returned"@))
        } else {
            Ok(o.choices@[0].message@)
        },
        ProviderResponse::Anthropic(a) => if provider != Provider::Anthropic {
            Err(ErrorView::ParseError("Reply is not in the provider's shape"@))
        } else if a.content@.len() == 0 {
            Err(ErrorView::ParseError("No content returned"@))
        } else {
            Ok(plain_message(a.role@, a.content@[0].text@))
        },
    }
}

pub open spec fn message_result_view(r: Result<Message, Error>) -> Result<MessageView, ErrorView> {
    match r {
        Ok(m) => Ok(m@),
        Err(e) => Err(e@),
    }
}

fn mismatch() -> (r: Error)
    ensures
        r@ == ErrorView::ParseError("Reply is not in the provider's shape"@),
{
    Error::ParseError(String::from_str("Reply is not in the provider's shape"))
}

/// Turns a provider's reply into the canonical message.
pub fn parse_response(provider: Provider, reply: ProviderResponse) -> (r: Result<Message, Error>)
    ensures
        message_result_view(r) == parsed(provider, reply),
{
    match reply {
        ProviderResponse::Local(r) => {
            if provider != Provider::Local {
                return Err(mismatch());
            }
            match r {
                OllamaChatResponse::Success(s) => {
                    let m = s.message;
                    Ok(
                        Message {
                            role: m.role,
                            content: Some(m.content),
                            tool_calls: m.tool_calls,
                            tool_call_id: None,
                            name: None,
                        },
                    )
                },
                OllamaChatResponse::Error { error } => Err(Error::RequestFailed(error)),
            }
        },
        ProviderResponse::OpenAi(o) => {
            if provider != Provider::OpenAi {
                return Err(mismatch());
            }
            let mut choices = o.choices;
            if choices.len() == 0 {
                return Err(Error::ParseError(String::from_str("No response choices returned")));
            }
            let first = choices.remove(0);
            Ok(first.message)
        },
        ProviderResponse::Anthropic(a) => {
            if provider != Provider::Anthropic {
                return Err(mismatch());
            }
            let mut blocks = a.content;
            if blocks.len() == 0 {
                return Err(Error::ParseError(String::from_str("No content returned")));
            }
            let first = blocks.remove(0);
            Ok(
                Message {
                    role: a.role,
                    content: Some(first.text),
                    tool_calls: None,
                    tool_call_id: None,
                    name: None,
                },
            )
        },
    }
}

/// A reply in `provider`'s success shape that carries `role` and `content`.
pub open spec fn shaped(
    provider: Provider,
    reply: ProviderResponse,
    role: Seq<char>,
    content: Seq<char>,
) -> bool {
    match reply {
        ProviderResponse::Local(r) => provider == Provider::Local && match r {
            OllamaChatResponse::Success(s) => s.message.role@ == role && s.message.content@
                == content,
            OllamaChatResponse::Error { .. } => false,
        },
        ProviderResponse::OpenAi(o) => provider == Provider::OpenAi && o.choices@.len() > 0
            && o.choices@[0].message@.role == role && o.choices@[0].message@.content == Some(
            content,
        ),
        ProviderResponse::Anthropic(a) => provider == Provider::Anthropic && a.role@ == role
            && a.content@.len() > 0 && a.content@[0].text@ == content,
    }
}

/// Whether a conversation can be sent: it must hold a message.
pub open spec fn sendable(messages: Seq<Message>) -> bool {
    messages.len() > 0
}

/// Round trip: for every provider, a request is built for any non-empty
/// conversation, and a reply shaped by that provider's schema parses into a
/// message with the role and content the reply carries.
pub proof fn lemma_round_trip(
    provider: Provider,
    messages: Seq<Message>,
    reply: ProviderResponse,
    role: Seq<char>,
    content: Seq<char>,
)
    requires
        messages.len() > 0,
        shaped(provider, reply, role, content),
    ensures
        sendable(messages),
        parsed(provider, reply) is Ok,
        parsed(provider, reply)->Ok_0.role == role,
        parsed(provider, reply)->Ok_0.content == Some(content),
{
}

} // verus!
