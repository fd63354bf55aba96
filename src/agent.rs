//! The conversation loop, as a state machine: the caller sends each request
//! and hands back what came of it; tool calls are run here, in order, and
//! their results appended before the final round.

use vstd::prelude::*;
use vstd::string::*;
use crate::adapter::{
    ChatRequest, body_is, content_or_empty, emitted, expected_headers, header_pairs,
    policy_emitted,
};
use crate::error::{Error, ErrorView, error_text, result_view};
use crate::llm::{LLMClient, Reply, Settings, client_view, completed, configured, text_of};
use crate::model::{
    Message, MessageView, Tool, ToolCall, ToolCallView, calls_view, messages_view,
    plain_message, tool_result_message,
};
use crate::tools::{execute_tool_call, tool_answer};

verus! {

/// Where a conversation stands.
#[derive(Clone, Copy, Debug, PartialEq, Eq, Structural)]
pub enum Stage {
    /// The first request, with the tools, is due.
    AwaitingModel,
    /// The tool results are in; the request for the final answer is due.
    AwaitingFinal,
    /// The conversation has ended.
    Done,
}

/// The text a tool-result message carries: the result, or the error's text.
pub open spec fn reply_text(r: Result<Seq<char>, ErrorView>) -> Seq<char> {
    match r {
        Ok(s) => s,
        Err(e) => error_text(e),
    }
}

/// `m` is the tool-result message that answers `call`: it carries the call's
/// id, and that call's result or the text of that call's error.
pub open spec fn answers(m: MessageView, call: ToolCallView) -> bool {
    m == tool_result_message(call.id, reply_text(tool_answer(call)))
}

/// The assistant's message as it is kept in the history: its content made a
/// text (empty where it had none) and its tool calls kept as they came.
pub open spec fn sanitized(m: MessageView, calls: Seq<ToolCallView>) -> MessageView {
    MessageView {
        role: m.role,
        content: Some(content_or_empty(m)),
        tool_calls: Some(calls),
        tool_call_id: m.tool_call_id,
        name: m.name,
    }
}

/// The history after one tool round: the old history, the sanitized
/// assistant message, then one answer per call, in the calls' order.
pub open spec fn after_tool_round(
    before: Seq<MessageView>,
    after: Seq<MessageView>,
    response: MessageView,
    calls: Seq<ToolCallView>,
) -> bool {
    &&& after.len() == before.len() + 1 + calls.len()
    &&& after.subrange(0, before.len() as int) == before
    &&& after[before.len() as int] == sanitized(response, calls)
    &&& forall|i: int|
        0 <= i < calls.len() ==> answers(#[trigger] after[before.len() + 1 + i], calls[i])
}

fn outcome_text(r: Result<String, Error>) -> (t: String)
    ensures
        t@ == reply_text(result_view(r)),
{
    match r {
        Ok(s) => s,
        Err(e) => e.to_string(),
    }
}

/// Runs each tool call in order and appends to `history` the assistant's
/// message, then one tool-result message per call, each carrying its call's
/// id.
pub fn process_tool_calls(history: &mut Vec<Message>, response: Message, tool_calls: Vec<ToolCall>)
    ensures
        after_tool_round(
            messages_view(old(history)@),
            messages_view(final(history)@),
            response@,
            calls_view(tool_calls@),
        ),
{
    let n = tool_calls.len();
    let mut results: Vec<Message> = Vec::new();
    let mut i: usize = 0;
    while i < n
        invariant
            n == tool_calls@.len(),
            i <= n,
            results@.len() == i,
            forall|j: int|
                0 <= j < i ==> answers(#[trigger] results@[j]@, tool_calls@[j]@),
        decreases n - i,
    {
        let call = &tool_calls[i];
        let outcome = execute_tool_call(call);
        let text = outcome_text(outcome);
        let answer = Message::new_tool_result(call.id.clone(), text);
        results.push(answer);
        i = i + 1;
    }
    let ghost before = messages_view(history@);
    let ghost calls = calls_view(tool_calls@);
    let content = match response.content {
        Some(c) => c,
        None => String::new(),
    };
    let kept = Message {
        role: response.role,
        content: Some(content),
        tool_calls: Some(tool_calls),
        tool_call_id: response.tool_call_id,
        name: response.name,
    };
    assert(kept@ == sanitized(response@, calls));
    let ghost answers_seq = results@;
    history.push(kept);
    history.append(&mut results);
    proof {
        let after = messages_view(history@);
        assert(after.subrange(0, before.len() as int) =~= before);
        assert forall|k: int| 0 <= k < calls.len() implies answers(
            #[trigger] after[before.len() + 1 + k],
            calls[k],
        ) by {
            assert(after[before.len() + 1 + k] == answers_seq[k]@);
        }
    }
}

/// A conversation for one prompt.
pub struct Conversation {
    history: Vec<Message>,
    stage: Stage,
}

pub ghost struct ConversationView {
    pub history: Seq<MessageView>,
    pub stage: Stage,
}

impl View for Conversation {
    type V = ConversationView;

    closed spec fn view(&self) -> ConversationView {
        ConversationView { history: messages_view(self.history@), stage: self.stage }
    }
}

/// What a step of the conversation gives: go on with the next request, or
/// the final answer.
pub enum Outcome {
    Continue,
    Finished(Result<String, Error>),
}

pub open spec fn outcome_view(o: Outcome) -> Option<Result<Seq<char>, ErrorView>> {
    match o {
        Outcome::Continue => None,
        Outcome::Finished(r) => Some(result_view(r)),
    }
}

/// Whether a message asks for tools: it carries a non-empty list of calls.
pub open spec fn asks_for_tools(m: MessageView) -> bool {
    match m.tool_calls {
        Some(c) => c.len() > 0,
        None => false,
    }
}

/// The message as received, with its tool calls set apart.
pub open spec fn without_calls(m: MessageView) -> MessageView {
    MessageView { tool_calls: None, ..m }
}

impl Conversation {
    /// A conversation that opens with a system message and the user's prompt.
    pub fn new(system_prompt: String, prompt: String) -> (r: Self)
        ensures
            r@.history == seq![plain_message("system"@, system_prompt@), plain_message("user"@, prompt@)],
            r@.stage == Stage::AwaitingModel,
    {
        let mut history: Vec<Message> = Vec::new();
        history.push(Message::new_system(system_prompt));
        history.push(Message::new_user(prompt));
        let r = Conversation { history, stage: Stage::AwaitingModel };
        assert(r@.history =~= seq![plain_message("system"@, system_prompt@), plain_message("user"@, prompt@)]);
        r
    }

    pub fn history(&self) -> (r: &Vec<Message>)
        ensures
            messages_view(r@) == self@.history,
    {
        &self.history
    }

    pub fn stage(&self) -> (r: Stage)
        ensures
            r == self@.stage,
    {
        self.stage
    }

    /// The request that is due: the whole history, with the tools on the
    /// first round only. Nothing is due once the conversation has ended.
    pub fn next_request<'a>(&'a self, client: &LLMClient, tools: &'a [Tool]) -> (r: Option<ChatRequest<'a>>)
        ensures
            r is Some <==> self@.stage != Stage::Done && self@.history.len() > 0,
            r is Some ==> {
                let offered = if self@.stage == Stage::AwaitingModel {
                    Some(tools)
                } else {
                    None
                };
                let q = r->Some_0;
                &&& q.url@ == client@.endpoint
                &&& header_pairs(q.headers@) == expected_headers(client@.provider, client@.credential)
                &&& body_is(q.body, client@.provider, client@.model, self@.history, offered)
                &&& emitted(q.body) == policy_emitted(client@.provider, offered is Some)
            },
    {
        let offered = match self.stage {
            Stage::AwaitingModel => Some(tools),
            Stage::AwaitingFinal => None,
            Stage::Done => {
                return None;
            },
        };
        match client.chat_request(self.history.as_slice(), offered) {
            Ok(q) => Some(q),
            Err(_) => None,
        }
    }

    /// Takes what came back for the due request. On the first round, a
    /// message without tool calls ends the conversation with its text; one
    /// with tool calls has them run and answered, and the final round is
    /// due. On the final round, the message's text ends the conversation. Any
    /// failure ends it with that error.
    pub fn receive(&mut self, client: &LLMClient, reply: Reply) -> (r: Outcome)
        requires
            old(self)@.stage != Stage::Done,
        ensures
            ({
                let c = completed(client@.provider, reply);
                let before = old(self)@.history;
                if old(self)@.stage == Stage::AwaitingModel && c is Ok && asks_for_tools(c->Ok_0) {
                    &&& outcome_view(r) is None
                    &&& final(self)@.stage == Stage::AwaitingFinal
                    &&& after_tool_round(
                        before,
                        final(self)@.history,
                        without_calls(c->Ok_0),
                        c->Ok_0.tool_calls->Some_0,
                    )
                } else {
                    &&& outcome_view(r) == Some(text_of(c))
                    &&& final(self)@.stage == Stage::Done
                    &&& final(self)@.history == before
                }
            }),
    {
        let first = self.stage == Stage::AwaitingModel;
        let m = match client.complete(reply) {
            Ok(m) => m,
            Err(e) => {
                self.stage = Stage::Done;
                return Outcome::Finished(Err(e));
            },
        };
        let Message { role, content, tool_calls, tool_call_id, name } = m;
        let rest = Message { role, content, tool_calls: None, tool_call_id, name };
        if first {
            match tool_calls {
                Some(calls) => {
                    if calls.len() > 0 {
                        process_tool_calls(&mut self.history, rest, calls);
                        self.stage = Stage::AwaitingFinal;
                        return Outcome::Continue;
                    }
                },
                None => {},
            }
        }
        self.stage = Stage::Done;
        Outcome::Finished(
            Ok(
                match rest.content {
                    Some(c) => c,
                    None => String::new(),
                },
            ),
        )
    }
}

/// The agent: it answers a prompt with the hosted model, offering the tool
/// catalog.
pub struct Component;

pub const MODEL: &'static str = "gpt-4";

pub const SYSTEM_PROMPT: &'static str = "You are a helpful assistant for the Hats Protocol, a system for creating, managing, and wearing authority tokens called Hats. Use the provided tools when appropriate to assist users with their queries.";

impl Component {
    /// The client for the agent's model.
    pub fn client(settings: &Settings) -> (r: Result<LLMClient, Error>)
        ensures
            client_view(r) == configured(MODEL@, *settings),
    {
        LLMClient::new(MODEL, settings)
    }

    /// The conversation for a prompt, opened by the agent's system prompt.
    pub fn conversation(prompt: String) -> (r: Conversation)
        ensures
            r@.history == seq![plain_message("system"@, SYSTEM_PROMPT@), plain_message("user"@, prompt@)],
            r@.stage == Stage::AwaitingModel,
    {
        Conversation::new(String::from_str(SYSTEM_PROMPT), prompt)
    }
}

} // verus!
