//! The core of a conversational agent that answers questions about a source
//! repository: the transcript it shows to the language model, the budget that
//! transcript is trimmed to, the decoding of the model's function calls into
//! actions, and the bookkeeping of one session.
//!
//! Everything here is a function from plain values to plain values. Talking to
//! the model, running the search tools, publishing snapshots and sending
//! analytics events are the driver's business; this crate decides what is to be
//! sent, run or recorded, and what follows from what came back.

pub mod action;
pub mod agent;
pub mod alias;
pub mod analytics;
pub mod error;
pub mod exchange;
pub mod history;
pub mod json;
pub mod message;
pub mod step;
pub mod text;
pub mod tokens;
pub mod trim;

pub use crate::action::Action;
pub use crate::agent::Agent;
pub use crate::error::Error;
