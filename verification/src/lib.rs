//! Screen context for dictation: what the screen shows, read as text and put into
//! the prompt of a language model.

pub mod commands;
pub mod ocr;
pub mod polish;
pub mod screen_context;
pub mod strings;
pub mod types;
