//! A multi-provider chat-completion client with a local tool executor and a
//! bounded conversation loop, with its request building, response parsing,
//! tool execution and conversation steps verified.

pub mod text;
pub mod model;
pub mod error;
pub mod json;
pub mod tools;
pub mod llama;
pub mod llm;
pub mod adapter;
pub mod agent;
