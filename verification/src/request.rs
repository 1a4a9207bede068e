//! The text that is sent to the fix-suggestion service: the log, bounded to
//! what the service can take, inside a short instruction.

use crate::truncate::{optimize_log_data, truncated, TokenizationError};
use vstd::prelude::*;

verus! {

/// The number of tokens of a log that the service is sent at most.
pub const FIX_TOKEN_BUDGET: usize = 4096;

/// How much analysis the service is asked for.
#[derive(Clone, Copy, Debug, PartialEq, Eq, Structural)]
pub enum AiMode {
    Simple,
    Full,
}

impl AiMode {
    /// The mode's tag as the service reads it.
    pub open spec fn tag(self) -> Seq<char> {
        match self {
            AiMode::Simple => "simple"@,
            AiMode::Full => "full"@,
        }
    }

    /// The mode's tag as the service reads it.
    pub fn tag_str(self) -> (tag: &'static str)
        ensures
            tag@ == self.tag(),
    {
        match self {
            AiMode::Simple => "simple",
            AiMode::Full => "full",
        }
    }
}

/// The instruction with the mode's tag and the log in it.
pub open spec fn prompt_text(log: Seq<char>, tag: Seq<char>) -> Seq<char> {
    "Analyze the following log file and generate fixes. AI Mode: "@ + tag + "\n\n```log\n"@ + log
        + "\n```"@
}

/// What building a request returned, as a value of the model.
pub open spec fn request_view(r: Result<String, TokenizationError>) -> Result<
    Seq<char>,
    TokenizationError,
> {
    match r {
        Ok(text) => Ok(text@),
        Err(e) => Err(e),
    }
}

/// The request for `log` in `mode`, given the outcome of truncating the log.
pub open spec fn request_for(bounded: Result<Seq<char>, TokenizationError>, mode: AiMode) -> Result<
    Seq<char>,
    TokenizationError,
> {
    match bounded {
        Ok(log) => Ok(prompt_text(log, mode.tag())),
        Err(e) => Err(e),
    }
}

/// Wraps `log` in the instruction for the service.
pub fn fix_prompt(log: &str, mode: AiMode) -> (prompt: String)
    ensures
        prompt@ == prompt_text(log@, mode.tag()),
{
    let mut prompt = String::from_str(
        "Analyze the following log file and generate fixes. AI Mode: ",
    );
    prompt.append(mode.tag_str());
    prompt.append("\n\n```log\n");
    prompt.append(log);
    prompt.append("\n```");
    prompt
}

/// Builds the text of a request for fixes to `log`: the log is truncated to
/// `FIX_TOKEN_BUDGET` tokens and wrapped in the instruction. Fails as the
/// truncation fails.
pub fn fix_request(log: &str, mode: AiMode) -> (r: Result<String, TokenizationError>)
    ensures
        r == Err::<String, TokenizationError>(TokenizationError::Unavailable) || request_view(r)
            == request_for(truncated(log@, FIX_TOKEN_BUDGET as int), mode),
{
    match optimize_log_data(log, FIX_TOKEN_BUDGET) {
        Ok(bounded) => Ok(fix_prompt(bounded.as_str(), mode)),
        Err(e) => Err(e),
    }
}

/// The suggestion of an answer of the service: the first of the choices it
/// offers. An answer without choices holds no suggestion.
pub fn first_suggestion(choices: Vec<String>) -> (suggestion: Option<String>)
    ensures
        match suggestion {
            Some(text) => choices@.len() > 0 && text == choices@[0],
            None => choices@.len() == 0,
        },
{
    let mut choices = choices;
    if choices.len() > 0 {
        Some(choices.swap_remove(0))
    } else {
        None
    }
}

} // verus!
