//! Theya: an offline AI coding assistant. This crate holds its verified
//! core: the configuration, the tools that the model may call and the
//! decisions of a tool call, the state of the conversations with
//! OpenAI-compatible and Ollama servers, the decisions of the coding, chat
//! and patch review sessions, the path check that keeps tools within the
//! working directory, and the bookkeeping of the long-term memory.
pub mod text;
pub mod editor;
pub mod logging;
pub mod json;
pub mod error;
pub mod config;
pub mod cmd;
pub mod git;
pub mod memory;
pub mod openai;
pub mod ollama;
pub mod security;
pub mod tools;
pub mod tool_call;
pub mod code;
pub mod patch_review;
pub mod chat;
