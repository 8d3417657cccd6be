//! The text of the screen as context for a dictation.
//!
//! Reading the screen must never hold up a dictation: whatever goes wrong, and whatever
//! takes too long, the dictation goes on without a context.

use vstd::prelude::*;

use crate::ocr::engine::OcrError;
use crate::strings;
use crate::types::UserPreferences;

verus! {

/// How many seconds a reading of the screen may take.
pub const TIMEOUT_SECONDS: u64 = 5;

/// How an attempt to read the screen ended.
#[derive(Debug)]
pub enum Attempt {
    /// The screen was not to be read.
    Skipped,
    /// The reading ended so.
    Finished(Result<Option<String>, OcrError>),
    /// The reading took too long.
    TimedOut,
}

/// The context that comes of an attempt: the text, where there is one.
pub open spec fn context(attempt: Attempt) -> Option<Seq<char>> {
    match attempt {
        Attempt::Finished(Ok(text)) => strings::string_opt(text),
        _ => None,
    }
}

/// Whether the screen is to be read for a dictation.
pub fn context_wanted(prefs: &UserPreferences) -> (r: bool)
    ensures
        r == prefs@.screen_context_enabled,
{
    prefs.screen_context_enabled
}

/// The context that comes of an attempt. A failure and a timeout count as no context.
pub fn capture_screen_context(attempt: Attempt) -> (r: Option<String>)
    ensures
        strings::string_opt(r) == context(attempt),
{
    match attempt {
        Attempt::Finished(Ok(text)) => text,
        _ => None,
    }
}

/// The context where the screen cannot be read without waiting: none.
pub fn capture_screen_context_sync() -> (r: Option<String>)
    ensures
        r is None,
{
    None
}

/// There is a context only where the reading ended with a text: a failure, a timeout and
/// a screen that is not to be read all mean none.
pub proof fn law_failure_means_no_context(attempt: Attempt)
    ensures
        context(attempt) is Some <==> (attempt matches Attempt::Finished(Ok(Some(_)))),
{
}

/// The text that a reading ended with is the context, unchanged.
pub proof fn law_text_is_the_context(text: String)
    ensures
        context(Attempt::Finished(Ok(Some(text)))) == Some(text@),
{
}

} // verus!
