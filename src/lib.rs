//! Orchestration core of a conversational memory assistant: intent routing,
//! multi-signal retrieval fusion, the reference tracker and the
//! pending-action confirmation machine.

pub mod text;
pub mod fusion;
pub mod dialogue;
pub mod retrieval;
pub mod confirmation;
pub mod classifier;
pub mod expander;
pub mod routing;
pub mod config;
pub mod prompts;
pub mod task_routing;
