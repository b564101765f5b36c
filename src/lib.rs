//! A provider-agnostic orchestration layer that turns one logical text
//! generation request into a bounded sequence of model calls, resolves the
//! tool calls the model asks for, and aggregates the outcome.

pub mod error;
pub mod content;
pub mod message;
pub mod prompt;
pub mod retry;
pub mod file;
pub mod settings;
pub mod model;
pub mod tool;
pub mod generate;
pub mod util;
pub mod openai;
