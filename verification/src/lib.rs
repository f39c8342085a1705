//! A per-conversation dialogue engine: accounts, the message log, the context
//! window handed to a chat agent, and the state machine that moves a
//! conversation from first contact through verification and onboarding into
//! open chat.

pub mod account;
pub mod agent;
pub mod dialogue;
pub mod engine;
pub mod laws;
pub mod phases;
pub mod message;
pub mod stamp;
