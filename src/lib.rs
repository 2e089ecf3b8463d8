//! A minimal agent framework around a remote language model: a context of conversation
//! and trajectory, a parser that reads free-text model output as an action, a prompt
//! renderer, skills read from documents, and the orchestration loop as a state machine
//! whose model calls and shell commands are carried out by the caller.

pub mod action;
pub mod agent;
pub mod config;
pub mod context;
pub mod harness;
pub mod node;
pub mod prompt;
pub mod response;
pub mod session;
pub mod signal;
pub mod skill;
pub mod stream;
pub mod structured;
pub mod text;
