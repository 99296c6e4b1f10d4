//! The examples that ship with the engine.

pub mod comment_translation;
