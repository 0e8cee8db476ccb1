//! A chat relay for bookkeeping by message: a webhook update comes in, its
//! text goes to a language model that extracts a financial transaction, and
//! the outcome is relayed to the chat the message came from.
//!
//! The crate holds the decisions and the text of that pipeline and makes no
//! network call of its own. Each client plans the HTTP call to make and
//! interprets what came back; the orchestrator is a transition function from
//! state and event to the next action.
pub mod http;
pub mod json;
pub mod llm;
pub mod tg_bot;
pub mod text;
pub mod webhook;
