//! Tokenizer configuration and chat-template rendering.
//!
//! A tokenizer configuration is a JSON document that names a tokenizer family,
//! carries its special tokens and holds a chat template.  This crate checks such
//! a document against the schema, keeps the result as an [`AutoTokenizer`], and
//! renders the template over a conversation to the prompt text a model expects.
//!
//! JSON is read by `serde_json` and the template is run by `minijinja`.  What is
//! assumed of the two is stated in the modules `json` and `engine`; everything
//! else (the schema, the resolution of special tokens, the bindings handed to the
//! template and the mapping of failures) is verified.
pub mod config;
pub mod engine;
pub mod error;
pub mod json;
pub mod message;
pub mod render;
pub mod token;

pub use config::AutoTokenizer;
pub use error::{ConfigError, RenderError};
pub use message::DefaultPromptMessage;
pub use token::{Token, TokenObj};
