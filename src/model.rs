//! The canonical conversation model shared by every provider: messages, tool
//! definitions and tool calls, each with a view over plain sequences.

use vstd::prelude::*;
use vstd::string::*;

verus! {

/// One property of a tool's parameter schema: its name, its JSON type and,
/// where the property is an enumeration, the values it may take.
pub struct PropertySchema {
    pub name: String,
    pub property_type: String,
    pub allowed_values: Option<Vec<String>>,
}

/// A JSON-schema object describing a tool's arguments.
pub struct ParameterSchema {
    pub schema_type: String,
    pub properties: Vec<PropertySchema>,
    pub required: Vec<String>,
}

/// A loose description of one function parameter.
pub struct FunctionParameter {
    pub name: Option<String>,
    pub description: Option<String>,
    pub parameter_type: Option<String>,
}

/// The declarative part of a tool: its name, description and argument schema.
pub struct Function {
    pub name: String,
    pub description: Option<String>,
    pub parameters: Option<ParameterSchema>,
}

/// A tool advertised to the model. It carries no executable code.
pub struct Tool {
    pub tool_type: String,
    pub function: Function,
}

/// The function named by a tool call, with its JSON-encoded arguments.
pub struct ToolCallFunction {
    pub name: String,
    pub arguments: String,
}

/// A model's request to run a local tool.
pub struct ToolCall {
    pub id: String,
    pub tool_type: String,
    pub function: ToolCallFunction,
}

/// One turn of a conversation.
pub struct Message {
    pub role: String,
    pub content: Option<String>,
    pub tool_calls: Option<Vec<ToolCall>>,
    pub tool_call_id: Option<String>,
    pub name: Option<String>,
}

pub ghost struct ToolCallView {
    pub id: Seq<char>,
    pub tool_type: Seq<char>,
    pub name: Seq<char>,
    pub arguments: Seq<char>,
}

pub ghost struct MessageView {
    pub role: Seq<char>,
    pub content: Option<Seq<char>>,
    pub tool_calls: Option<Seq<ToolCallView>>,
    pub tool_call_id: Option<Seq<char>>,
    pub name: Option<Seq<char>>,
}

pub open spec fn text_view(o: Option<String>) -> Option<Seq<char>> {
    match o {
        Some(s) => Some(s@),
        None => None,
    }
}

pub open spec fn calls_view(calls: Seq<ToolCall>) -> Seq<ToolCallView> {
    calls.map_values(|c: ToolCall| c@)
}

pub open spec fn messages_view(ms: Seq<Message>) -> Seq<MessageView> {
    ms.map_values(|m: Message| m@)
}

impl View for ToolCall {
    type V = ToolCallView;

    open spec fn view(&self) -> ToolCallView {
        ToolCallView {
            id: self.id@,
            tool_type: self.tool_type@,
            name: self.function.name@,
            arguments: self.function.arguments@,
        }
    }
}

impl View for Message {
    type V = MessageView;

    open spec fn view(&self) -> MessageView {
        MessageView {
            role: self.role@,
            content: text_view(self.content),
            tool_calls: match self.tool_calls {
                Some(calls) => Some(calls_view(calls@)),
                None => None,
            },
            tool_call_id: text_view(self.tool_call_id),
            name: text_view(self.name),
        }
    }
}

/// A plain message of the given role and content, with no tool fields.
pub open spec fn plain_message(role: Seq<char>, content: Seq<char>) -> MessageView {
    MessageView {
        role,
        content: Some(content),
        tool_calls: None,
        tool_call_id: None,
        name: None,
    }
}

impl Message {
    pub fn new_user(content: String) -> (r: Self)
        ensures
            r@ == plain_message("user"@, content@),
    {
        Message {
            role: String::from_str("user"),
            content: Some(content),
            tool_calls: None,
            tool_call_id: None,
            name: None,
        }
    }

    pub fn new_system(content: String) -> (r: Self)
        ensures
            r@ == plain_message("system"@, content@),
    {
        Message {
            role: String::from_str("system"),
            content: Some(content),
            tool_calls: None,
            tool_call_id: None,
            name: None,
        }
    }

    /// The answer to one tool call, correlated with it by the call's id.
    pub fn new_tool_result(tool_call_id: String, content: String) -> (r: Self)
        ensures
            r@ == tool_result_message(tool_call_id@, content@),
    {
        Message {
            role: String::from_str("tool"),
            content: Some(content),
            tool_calls: None,
            tool_call_id: Some(tool_call_id),
            name: None,
        }
    }
}

pub open spec fn tool_result_message(id: Seq<char>, content: Seq<char>) -> MessageView {
    MessageView {
        role: "tool"@,
        content: Some(content),
        tool_calls: None,
        tool_call_id: Some(id),
        name: None,
    }
}

} // verus!
