use hats_agent::adapter::{
    AnthropicContent, AnthropicResponse, ChatRequest, Decimal, OpenAiChatResponse, OpenAiChoice,
    ProviderResponse, RequestBody, parse_response, sampling_policy,
};
use hats_agent::agent::{Component, Conversation, Outcome, Stage, process_tool_calls};
use hats_agent::error::Error;
use hats_agent::llama::{OllamaChatMessage, OllamaChatResponse, OllamaChatSuccessResponse};
use hats_agent::llm::{LLMClient, Provider, Reply, Settings};
use hats_agent::model::{Message, Tool, ToolCall, ToolCallFunction};
use hats_agent::text::{blank, push_int};
use hats_agent::tools::{calculate, calculator, catalog, execute_tool_call};

fn settings() -> Settings {
    Settings {
        provider: None,
        ollama_api_url: Some("http://localhost:11434".to_string()),
        openai_api_key: Some("test-openai-key".to_string()),
        anthropic_api_key: Some("test-anthropic-key".to_string()),
    }
}

const HOSTED_MESSAGES_MODEL: &str = "messages-model";

fn bare_settings() -> Settings {
    Settings { provider: None, ollama_api_url: None, openai_api_key: None, anthropic_api_key: None }
}

fn client(model: &str) -> LLMClient {
    let mut s = settings();
    if model == HOSTED_MESSAGES_MODEL {
        s.provider = Some(Provider::Anthropic);
    }
    match LLMClient::new(model, &s) {
        Ok(c) => c,
        Err(e) => panic!("client for {} refused: {}", model, e.to_string()),
    }
}

fn error_of<T>(r: Result<T, Error>) -> Error {
    match r {
        Ok(_) => panic!("expected an error"),
        Err(e) => e,
    }
}

fn call(id: &str, name: &str, arguments: &str) -> ToolCall {
    ToolCall {
        id: id.to_string(),
        tool_type: "function".to_string(),
        function: ToolCallFunction { name: name.to_string(), arguments: arguments.to_string() },
    }
}

fn calc(arguments: &str) -> Result<String, Error> {
    execute_tool_call(&call("call_1", "calculator", arguments))
}

fn ok_text(r: Result<String, Error>) -> String {
    match r {
        Ok(s) => s,
        Err(e) => panic!("unexpected error: {}", e.to_string()),
    }
}

fn openai_reply(message: Message) -> Reply {
    Reply::Received {
        status: 200,
        body: String::new(),
        decoded: Ok(ProviderResponse::OpenAi(OpenAiChatResponse {
            choices: vec![OpenAiChoice { message }],
        })),
    }
}

fn assistant(content: Option<&str>, tool_calls: Option<Vec<ToolCall>>) -> Message {
    Message {
        role: "assistant".to_string(),
        content: content.map(|c| c.to_string()),
        tool_calls,
        tool_call_id: None,
        name: None,
    }
}

fn two_messages() -> Vec<Message> {
    vec![
        Message::new_system("You are a helpful math assistant".to_string()),
        Message::new_user("What is 2+2?".to_string()),
    ]
}

#[test]
fn test_llm_client_initialization() {
    let client = LLMClient::new("llama3.2", &settings());
    assert!(client.is_ok());
    let client = match client {
        Ok(c) => c,
        Err(_) => unreachable!(),
    };
    assert_eq!(client.model(), "llama3.2");
    assert!(client.api_url().contains("localhost:11434"));
    assert!(client.api_url().contains("/api/chat"));
}

#[test]
fn test_new_client_empty_model() {
    let result = LLMClient::new("", &settings());
    assert!(result.is_err());
    assert_eq!(error_of(result).to_string(), "Model name cannot be empty");

    let result = LLMClient::new("   ", &settings());
    assert!(result.is_err());
    assert_eq!(error_of(result).to_string(), "Model name cannot be empty");
}

#[test]
fn test_chat_completion_empty_messages() {
    let client = client("llama3.2");
    let result = client.chat_request(&[], None);
    assert!(result.is_err());
    assert!(error_of(result).to_string().contains("Messages cannot be empty"));
}

#[test]
fn test_integration_tests_note() {
    println!("Note: Integration tests are skipped when running natively.");
    println!("To run integration tests, use `cargo wasi test` or run in a WASI environment.");
}

#[test]
fn test_tool_definition() {
    let calculator_tool = calculator();
    assert_eq!(calculator_tool.tool_type, "function");
    assert_eq!(calculator_tool.function.name, "calculator");
}

#[test]
fn empty_messages_refused_for_every_provider() {
    for model in ["llama3.2", "gpt-4", HOSTED_MESSAGES_MODEL] {
        let c = client(model);
        assert!(matches!(error_of(c.chat_request(&[], None)), Error::EmptyMessages));
        let tools = catalog();
        assert!(matches!(
            error_of(c.chat_request(&[], Some(tools.as_slice()))),
            Error::EmptyMessages
        ));
    }
}

#[test]
fn blank_models_refused() {
    for model in ["", " ", "\t\n", "\u{3000}"] {
        assert!(matches!(error_of(LLMClient::new(model, &settings())), Error::EmptyModelName));
    }
    assert!(LLMClient::new(" x ", &settings()).is_ok());
}

#[test]
fn hosted_provider_without_credential_refused() {
    assert!(matches!(error_of(LLMClient::new("gpt-4", &bare_settings())), Error::InvalidProvider));
    assert!(matches!(
        error_of(LLMClient::new("gpt-3.5-turbo", &bare_settings())),
        Error::InvalidProvider
    ));
    assert!(matches!(
        error_of(LLMClient::new(
            HOSTED_MESSAGES_MODEL,
            &Settings { provider: Some(Provider::Anthropic), ..bare_settings() }
        )),
        Error::InvalidProvider
    ));
    assert_eq!(error_of(LLMClient::new("gpt-4", &bare_settings())).to_string(), "Invalid provider configuration");
}

#[test]
fn providers_and_endpoints_resolved() {
    let local = match LLMClient::new("llama3.2", &bare_settings()) {
        Ok(c) => c,
        Err(_) => panic!("local client refused"),
    };
    assert_eq!(local.provider(), Provider::Local);
    assert_eq!(local.api_url(), "http://localhost:11434/api/chat");
    let s = Settings { ollama_api_url: Some("http://ollama:9000".to_string()), ..bare_settings() };
    let local = match LLMClient::new("llama3.2", &s) {
        Ok(c) => c,
        Err(_) => panic!("local client refused"),
    };
    assert_eq!(local.api_url(), "http://ollama:9000/api/chat");
    let openai = client("gpt-4");
    assert_eq!(openai.provider(), Provider::OpenAi);
    assert_eq!(openai.api_url(), "https://api.openai.com/v1/chat/completions");
    let anthropic = client(HOSTED_MESSAGES_MODEL);
    assert_eq!(anthropic.provider(), Provider::Anthropic);
    assert_eq!(anthropic.api_url(), "https://api.anthropic.com/v1/messages");
}

#[test]
fn calculator_adds() {
    let r = ok_text(calc("{\"operation\":\"add\",\"a\":2,\"b\":3}"));
    assert!(r.contains("5"));
    assert_eq!(r, "The result of 2 add 3 is 5");
}

#[test]
fn calculator_divides() {
    let r = ok_text(calc("{\"operation\":\"divide\",\"a\":24,\"b\":6}"));
    assert!(r.contains("4"));
    assert_eq!(r, "The result of 24 divide 6 is 4");
}

#[test]
fn calculator_division_by_zero() {
    match calc("{\"operation\":\"divide\",\"a\":1,\"b\":0}") {
        Err(Error::ToolExecutionError(m)) => assert_eq!(m, "Division by zero"),
        _ => panic!("expected a division-by-zero error"),
    }
}

#[test]
fn calculator_unsupported_operation() {
    match calc("{\"operation\":\"modulo\",\"a\":1,\"b\":1}") {
        Err(Error::ToolExecutionError(m)) => assert!(m.contains("modulo")),
        _ => panic!("expected an unsupported-operation error"),
    }
}

#[test]
fn calculator_other_operations() {
    assert_eq!(ok_text(calc("{\"operation\":\"subtract\",\"a\":2,\"b\":5}")), "The result of 2 subtract 5 is -3");
    assert_eq!(ok_text(calc("{\"operation\":\"multiply\",\"a\":-7,\"b\":6}")), "The result of -7 multiply 6 is -42");
    assert_eq!(ok_text(calc("{\"operation\":\"divide\",\"a\":-24,\"b\":6}")), "The result of -24 divide 6 is -4");
    assert_eq!(ok_text(calc("{\"operation\":\"divide\",\"a\":7,\"b\":-2}")), "The result of 7 divide -2 is -7/2");
    assert_eq!(ok_text(calc("{\"b\":3,\"a\":1,\"operation\":\"divide\"}")), "The result of 1 divide 3 is 1/3");
}

#[test]
fn calculator_extreme_operands() {
    let r = ok_text(calculate("multiply", i64::MIN, i64::MIN));
    assert_eq!(r, "The result of -9223372036854775808 multiply -9223372036854775808 is 85070591730234615865843651857942052864");
    let r = ok_text(calculate("divide", i64::MIN, -1));
    assert_eq!(r, "The result of -9223372036854775808 divide -1 is 9223372036854775808");
    let r = ok_text(calculate("add", i64::MAX, i64::MAX));
    assert_eq!(r, "The result of 9223372036854775807 add 9223372036854775807 is 18446744073709551614");
}

#[test]
fn calculator_argument_errors() {
    match calc("not json") {
        Err(Error::ToolArgumentError(m)) => assert!(m.starts_with("Failed to parse calculator arguments: ")),
        _ => panic!("expected a parse error"),
    }
    match calc("{\"a\":1,\"b\":2}") {
        Err(Error::ToolArgumentError(m)) => assert_eq!(m, "Missing operation"),
        _ => panic!("expected a missing operation"),
    }
    match calc("{\"operation\":7,\"a\":1,\"b\":2}") {
        Err(Error::ToolArgumentError(m)) => assert_eq!(m, "Missing operation"),
        _ => panic!("expected a missing operation"),
    }
    match calc("{\"operation\":\"add\",\"b\":2}") {
        Err(Error::ToolArgumentError(m)) => assert_eq!(m, "Missing parameter a"),
        _ => panic!("expected a missing parameter"),
    }
    match calc("{\"operation\":\"add\",\"a\":\"x\",\"b\":2}") {
        Err(Error::ToolArgumentError(m)) => assert_eq!(m, "Missing parameter a"),
        _ => panic!("expected a missing parameter"),
    }
    match calc("{\"operation\":\"add\",\"a\":1}") {
        Err(Error::ToolArgumentError(m)) => assert_eq!(m, "Missing parameter b"),
        _ => panic!("expected a missing parameter"),
    }
    match calc("{\"operation\":\"add\",\"a\":1,\"b\":2.5}") {
        Err(Error::ToolArgumentError(m)) => assert_eq!(m, "Parameter b is not an integer"),
        _ => panic!("expected a non-integer parameter"),
    }
}

#[test]
fn unknown_tool_answered_with_note() {
    let r = ok_text(execute_tool_call(&call("c9", "weather", "{}")));
    assert_eq!(r, "Unknown tool: weather");
}

#[test]
fn calculator_schema_declared() {
    let t = calculator();
    let params = match &t.function.parameters {
        Some(p) => p,
        None => panic!("no schema"),
    };
    assert_eq!(params.schema_type, "object");
    assert_eq!(params.properties.len(), 3);
    assert_eq!(params.properties[0].name, "operation");
    assert_eq!(
        params.properties[0].allowed_values,
        Some(vec!["add".to_string(), "subtract".to_string(), "multiply".to_string(), "divide".to_string()])
    );
    assert_eq!(params.required, vec!["operation".to_string(), "a".to_string(), "b".to_string()]);
    assert_eq!(catalog().len(), 1);
}

fn emitted(q: &ChatRequest) -> (Decimal, Decimal, Option<u64>, u32) {
    match &q.body {
        RequestBody::Local { options, .. } => (options.temperature, options.top_p, Some(options.seed), options.num_predict),
        RequestBody::OpenAi { temperature, top_p, seed, max_tokens, .. } => (*temperature, *top_p, Some(*seed), *max_tokens),
        RequestBody::Anthropic { temperature, top_p, max_tokens, .. } => (*temperature, *top_p, None, *max_tokens),
    }
}

#[test]
fn sampling_fixed_for_every_provider() {
    let zero = Decimal { units: 0, scale: 1 };
    let tools = catalog();
    let conversations = vec![two_messages(), vec![Message::new_user("hi".to_string())]];
    for model in ["llama3.2", "gpt-4", HOSTED_MESSAGES_MODEL] {
        let c = client(model);
        for msgs in &conversations {
            let q = match c.chat_request(msgs.as_slice(), None) {
                Ok(q) => q,
                Err(_) => panic!("request refused"),
            };
            let (t, _, seed, max) = emitted(&q);
            assert_eq!(t, zero);
            assert_eq!(max, 100);
            if c.provider() != Provider::Anthropic {
                assert_eq!(seed, Some(42));
            }
            let q = match c.chat_request(msgs.as_slice(), Some(tools.as_slice())) {
                Ok(q) => q,
                Err(_) => panic!("request refused"),
            };
            let (t, _, seed, max) = emitted(&q);
            assert_eq!(t, zero);
            assert_eq!(max, 1024);
            if c.provider() != Provider::Anthropic {
                assert_eq!(seed, Some(42));
            }
        }
    }
    assert_eq!(sampling_policy(Provider::Local, false).top_p, Decimal { units: 1, scale: 1 });
    assert_eq!(sampling_policy(Provider::OpenAi, true).top_p, Decimal { units: 10, scale: 1 });
}

#[test]
fn request_shapes() {
    let msgs = vec![
        Message::new_system("sys".to_string()),
        Message::new_user("first".to_string()),
        assistant(Some("reply"), None),
        Message::new_user("second".to_string()),
    ];
    let openai = client("gpt-4");
    let q = match openai.chat_request(msgs.as_slice(), None) {
        Ok(q) => q,
        Err(_) => panic!("request refused"),
    };
    assert_eq!(q.url, "https://api.openai.com/v1/chat/completions");
    assert_eq!(q.headers.len(), 3);
    assert_eq!(q.headers[2].name, "Authorization");
    assert_eq!(q.headers[2].value, "Bearer test-openai-key");
    match &q.body {
        RequestBody::OpenAi { model, messages, stream, tools, .. } => {
            assert_eq!(model, "gpt-4");
            assert_eq!(messages.len(), 4);
            assert!(!stream);
            assert!(tools.is_none());
        }
        _ => panic!("expected the OpenAI shape"),
    }
    let local = client("llama3.2");
    let q = match local.chat_request(msgs.as_slice(), None) {
        Ok(q) => q,
        Err(_) => panic!("request refused"),
    };
    assert_eq!(q.headers.len(), 2);
    match &q.body {
        RequestBody::Local { options, .. } => assert_eq!(options.num_ctx, 4096),
        _ => panic!("expected the local shape"),
    }
    let anthropic = client(HOSTED_MESSAGES_MODEL);
    let q = match anthropic.chat_request(msgs.as_slice(), None) {
        Ok(q) => q,
        Err(_) => panic!("request refused"),
    };
    assert_eq!(q.headers[2].name, "x-api-key");
    assert_eq!(q.headers[2].value, "test-anthropic-key");
    match &q.body {
        RequestBody::Anthropic { system, messages, .. } => {
            assert_eq!(system.as_deref(), Some("sys"));
            assert_eq!(messages.len(), 1);
            assert_eq!(messages[0].role, "user");
            assert_eq!(messages[0].content, "first\n\nreply\n\nsecond");
        }
        _ => panic!("expected the Anthropic shape"),
    }
}

fn parsed_ok(provider: Provider, reply: ProviderResponse) -> Message {
    match parse_response(provider, reply) {
        Ok(m) => m,
        Err(e) => panic!("reply refused: {}", e.to_string()),
    }
}

#[test]
fn round_trip_each_provider() {
    let msgs = two_messages();
    for model in ["llama3.2", "gpt-4", HOSTED_MESSAGES_MODEL] {
        assert!(client(model).chat_request(msgs.as_slice(), None).is_ok());
    }
    let m = parsed_ok(
        Provider::Local,
        ProviderResponse::Local(OllamaChatResponse::Success(OllamaChatSuccessResponse {
            message: OllamaChatMessage { role: "assistant".to_string(), content: "4".to_string(), tool_calls: None },
        })),
    );
    assert_eq!(m.role, "assistant");
    assert_eq!(m.content.as_deref(), Some("4"));
    let m = parsed_ok(
        Provider::OpenAi,
        ProviderResponse::OpenAi(OpenAiChatResponse {
            choices: vec![OpenAiChoice { message: assistant(Some("four"), None) }],
        }),
    );
    assert_eq!(m.role, "assistant");
    assert_eq!(m.content.as_deref(), Some("four"));
    let m = parsed_ok(
        Provider::Anthropic,
        ProviderResponse::Anthropic(AnthropicResponse {
            role: "assistant".to_string(),
            content: vec![AnthropicContent { text: "IV".to_string() }, AnthropicContent { text: "x".to_string() }],
        }),
    );
    assert_eq!(m.role, "assistant");
    assert_eq!(m.content.as_deref(), Some("IV"));
}

#[test]
fn malformed_replies_refused() {
    assert!(matches!(
        error_of(parse_response(Provider::OpenAi, ProviderResponse::OpenAi(OpenAiChatResponse { choices: vec![] }))),
        Error::ParseError(_)
    ));
    assert!(matches!(
        error_of(parse_response(
            Provider::Anthropic,
            ProviderResponse::Anthropic(AnthropicResponse { role: "assistant".to_string(), content: vec![] })
        )),
        Error::ParseError(_)
    ));
    assert!(matches!(
        error_of(parse_response(Provider::Local, ProviderResponse::OpenAi(OpenAiChatResponse { choices: vec![] }))),
        Error::ParseError(_)
    ));
    match parse_response(
        Provider::Local,
        ProviderResponse::Local(OllamaChatResponse::Error { error: "model not found".to_string() }),
    ) {
        Err(Error::RequestFailed(m)) => assert_eq!(m, "model not found"),
        _ => panic!("expected the server's error"),
    }
}

#[test]
fn reply_errors() {
    let c = client("gpt-4");
    match c.complete(Reply::TransportFailed("connection refused".to_string())) {
        Err(e) => assert_eq!(e.to_string(), "Request failed: connection refused"),
        Ok(_) => panic!("expected a transport error"),
    }
    let r = c.complete(Reply::Received { status: 401, body: "unauthorized".to_string(), decoded: Err("x".to_string()) });
    match r {
        Err(e) => {
            assert!(matches!(e, Error::ApiError { status: 401, .. }));
            assert_eq!(e.to_string(), "API error: status 401 - unauthorized");
        }
        Ok(_) => panic!("expected an API error"),
    }
    let r = c.complete(Reply::Received { status: 200, body: "{".to_string(), decoded: Err("EOF".to_string()) });
    match r {
        Err(e) => {
            assert!(matches!(e, Error::ParseError(_)));
            assert_eq!(e.to_string(), "Failed to parse response: EOF");
        }
        Ok(_) => panic!("expected a parse error"),
    }
    assert_eq!(ok_text(c.complete_text(openai_reply(assistant(None, None)))), "");
    assert_eq!(ok_text(c.complete_text(openai_reply(assistant(Some("hi"), None)))), "hi");
}

#[test]
fn tool_results_follow_call_order() {
    let mut history = two_messages();
    let calls = vec![
        call("b", "calculator", "{\"operation\":\"add\",\"a\":1,\"b\":1}"),
        call("a", "weather", "{}"),
        call("c", "calculator", "{\"operation\":\"divide\",\"a\":1,\"b\":0}"),
    ];
    process_tool_calls(&mut history, assistant(None, None), calls);
    assert_eq!(history.len(), 6);
    assert_eq!(history[2].role, "assistant");
    assert_eq!(history[2].content.as_deref(), Some(""));
    let kept = history[2].tool_calls.as_ref().map(|c| c.len());
    assert_eq!(kept, Some(3));
    let ids: Vec<Option<&str>> = history[3..].iter().map(|m| m.tool_call_id.as_deref()).collect();
    assert_eq!(ids, vec![Some("b"), Some("a"), Some("c")]);
    assert!(history[3..].iter().all(|m| m.role == "tool"));
    assert_eq!(history[3].content.as_deref(), Some("The result of 1 add 1 is 2"));
    assert_eq!(history[4].content.as_deref(), Some("Unknown tool: weather"));
    assert_eq!(history[5].content.as_deref(), Some("Division by zero"));
}

#[test]
fn end_to_end_calculation() {
    let c = client("gpt-4");
    let tools: Vec<Tool> = catalog();
    let mut conversation = Conversation::new(
        "You are a helpful math assistant. Use the calculator tool when needed.".to_string(),
        "Calculate 24 divided by 6".to_string(),
    );
    {
        let q = match conversation.next_request(&c, tools.as_slice()) {
            Some(q) => q,
            None => panic!("no request"),
        };
        match &q.body {
            RequestBody::OpenAi { tools: Some(t), messages, .. } => {
                assert_eq!(t.len(), 1);
                assert_eq!(t[0].function.name, "calculator");
                assert_eq!(messages.len(), 2);
            }
            _ => panic!("expected tools on the first round"),
        }
    }
    let first = assistant(
        None,
        Some(vec![call("call_1", "calculator", "{\"operation\":\"divide\",\"a\":24,\"b\":6}")]),
    );
    assert!(matches!(conversation.receive(&c, openai_reply(first)), Outcome::Continue));
    assert_eq!(conversation.stage(), Stage::AwaitingFinal);
    assert_eq!(conversation.history().len(), 4);
    assert_eq!(conversation.history()[3].tool_call_id.as_deref(), Some("call_1"));
    assert_eq!(conversation.history()[3].content.as_deref(), Some("The result of 24 divide 6 is 4"));
    {
        let q = match conversation.next_request(&c, tools.as_slice()) {
            Some(q) => q,
            None => panic!("no final request"),
        };
        match &q.body {
            RequestBody::OpenAi { tools, messages, max_tokens, .. } => {
                assert!(tools.is_none());
                assert_eq!(messages.len(), 4);
                assert_eq!(*max_tokens, 100);
            }
            _ => panic!("expected the OpenAI shape"),
        }
    }
    let last = conversation.receive(&c, openai_reply(assistant(Some("The result is 4"), None)));
    match last {
        Outcome::Finished(Ok(text)) => assert_eq!(text, "The result is 4"),
        _ => panic!("expected the final answer"),
    }
    assert_eq!(conversation.stage(), Stage::Done);
    assert!(conversation.next_request(&c, tools.as_slice()).is_none());
}

#[test]
fn answer_without_tools_ends_at_once() {
    let c = client("llama3.2");
    let mut conversation = Component::conversation("What is 2+2?".to_string());
    assert_eq!(conversation.history()[0].role, "system");
    let reply = Reply::Received {
        status: 200,
        body: String::new(),
        decoded: Ok(ProviderResponse::Local(OllamaChatResponse::Success(OllamaChatSuccessResponse {
            message: OllamaChatMessage { role: "assistant".to_string(), content: "4".to_string(), tool_calls: Some(vec![]) },
        }))),
    };
    match conversation.receive(&c, reply) {
        Outcome::Finished(Ok(text)) => assert_eq!(text, "4"),
        _ => panic!("expected the answer"),
    }
    assert_eq!(conversation.history().len(), 2);
}

#[test]
fn failure_ends_conversation() {
    let c = client("gpt-4");
    let mut conversation = Component::conversation("hi".to_string());
    match conversation.receive(&c, Reply::TransportFailed("timeout".to_string())) {
        Outcome::Finished(Err(Error::RequestFailed(m))) => assert_eq!(m, "timeout"),
        _ => panic!("expected the transport error"),
    }
    assert_eq!(conversation.stage(), Stage::Done);
    assert!(Component::client(&bare_settings()).is_err());
    assert!(Component::client(&settings()).is_ok());
}

#[test]
fn text_helpers() {
    let mut s = String::new();
    push_int(&mut s, i128::MIN);
    assert_eq!(s, i128::MIN.to_string());
    let mut s = String::from("n=");
    push_int(&mut s, 0);
    assert_eq!(s, "n=0");
    assert!(blank(" \t\u{a0}"));
    assert!(!blank(" a "));
}

#[test]
fn error_texts() {
    assert_eq!(Error::EmptyMessages.to_string(), "Messages cannot be empty");
    assert_eq!(Error::ToolExecutionError("Division by zero".to_string()).to_string(), "Division by zero");
    assert_eq!(Error::ToolArgumentError("Missing operation".to_string()).to_string(), "Missing operation");
}

#[test]
fn argument_errors_in_order() {
    match calc("{\"a\":\"x\"}") {
        Err(Error::ToolArgumentError(m)) => assert_eq!(m, "Missing operation"),
        _ => panic!("expected the operation to be checked first"),
    }
    match calc("{\"operation\":\"modulo\",\"a\":2.5}") {
        Err(Error::ToolArgumentError(m)) => assert_eq!(m, "Parameter a is not an integer"),
        _ => panic!("expected operand a to be checked before b and before the operation's name"),
    }
    match calc("[1, 2]") {
        Err(Error::ToolArgumentError(m)) => assert_eq!(m, "Missing operation"),
        _ => panic!("expected a missing operation"),
    }
}

#[test]
fn same_arguments_same_answer() {
    let args = "{\"operation\":\"multiply\",\"a\":6,\"b\":7}";
    let first = ok_text(execute_tool_call(&call("x1", "calculator", args)));
    let second = ok_text(execute_tool_call(&call("x2", "calculator", args)));
    assert_eq!(first, second);
    assert_eq!(first, "The result of 6 multiply 7 is 42");
}
