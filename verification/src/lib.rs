//! Evaluation engine for scripted conversations with a coding agent.
//!
//! An example drives a conversation, inspects the tool invocations the agent
//! made, records exact checks, and declares rubrics that an external judge
//! grades afterwards. Everything here is pure state and decisions: the caller
//! performs the agent runs, the diff capture and the grading calls, and feeds
//! their results back in.

pub mod assertions;
pub mod editor_settings;
pub mod error;
pub mod example;
pub mod examples;
pub mod judge;
pub mod run;
pub mod thread;
pub mod tool_input;
pub mod value;
