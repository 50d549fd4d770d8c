//! Streaming chat-agent core: stream decoding, tool-call reassembly,
//! provider request shaping, transcript policies and the agent loop's decisions.
pub mod json;
pub mod text;
pub mod accumulator;
pub mod adapter;
pub mod decoder;
pub mod conversation;
pub mod spill;
pub mod settings;
pub mod tools;
pub mod request;
pub mod orchestrator;
pub mod recursive;
pub mod image;
pub mod history;
pub mod edit;
pub mod reading;
pub mod transcript;
