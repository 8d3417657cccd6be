//! Prompts for the language model that polishes, translates and answers.

pub mod envelope;
pub mod prompt_compose;
