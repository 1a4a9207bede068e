//! Token-bounded truncation: a hard upper bound on the size of a text,
//! counted in tokens of the `cl100k_base` vocabulary.
//!
//! A text within the budget is returned as it is. A longer one is cut after
//! the budget's number of tokens and the kept tokens are turned back into
//! text; nothing is added and nothing is repaired at the cut.

use vstd::prelude::*;

verus! {

/// The byte-pair tokenizer of the outside crate.
#[verifier::external_type_specification]
#[verifier::external_body]
pub struct ExCoreBpe(tiktoken_rs::CoreBPE);

/// The error that the tokenizer reports for a text it gives up on.
#[verifier::external_type_specification]
#[verifier::external_body]
pub struct ExEncodeError(tiktoken_rs::EncodeError);

/// The error type in which the tokenizer reports all other failures.
#[verifier::external_type_specification]
#[verifier::external_body]
pub struct ExAnyhowError(anyhow::Error);

/// The tokens of `text` in the `cl100k_base` vocabulary, special tokens
/// included; `None` for a text on which the tokenizer gives up.
pub uninterp spec fn cl100k_tokens(text: Seq<char>) -> Option<Seq<u32>>;

/// The text that `tokens` of the `cl100k_base` vocabulary stand for; `None`
/// where their bytes are no UTF-8 text, or one of them is not in the
/// vocabulary.
pub uninterp spec fn cl100k_text(tokens: Seq<u32>) -> Option<Seq<char>>;

/// Why a text could not be truncated.
#[derive(Clone, Copy, Debug, PartialEq, Eq, Structural)]
pub enum TokenizationError {
    /// The tokenizer could not be set up.
    Unavailable,
    /// The tokenizer gave up on the text.
    Unencodable,
    /// The kept tokens do not stand for a text: the cut fell inside a
    /// character.
    Undecodable,
}

impl TokenizationError {
    /// The error in words.
    pub open spec fn words(self) -> Seq<char> {
        match self {
            TokenizationError::Unavailable => "the tokenizer could not be set up"@,
            TokenizationError::Unencodable => "the text could not be split into tokens"@,
            TokenizationError::Undecodable => "the kept tokens do not make up a text"@,
        }
    }

    /// The error in words.
    pub fn message(self) -> (words: &'static str)
        ensures
            words@ == self.words(),
    {
        match self {
            TokenizationError::Unavailable => "the tokenizer could not be set up",
            TokenizationError::Unencodable => "the text could not be split into tokens",
            TokenizationError::Undecodable => "the kept tokens do not make up a text",
        }
    }
}

/// The `cl100k_base` tokenizer. The only way to a value of this type is
/// `Tokenizer::cl100k`.
pub struct Tokenizer {
    bpe: tiktoken_rs::CoreBPE,
}

/// The tokens that are turned back into text, if any are cut off: the first
/// `max_tokens` of them. `None` where all tokens are within the budget.
pub open spec fn kept_prefix(tokens: Seq<u32>, max_tokens: int) -> Option<Seq<u32>> {
    if tokens.len() <= max_tokens {
        None
    } else {
        Some(tokens.take(max_tokens))
    }
}

/// `text` has no more than `max_tokens` tokens.
pub open spec fn within_budget(text: Seq<char>, max_tokens: int) -> bool {
    cl100k_tokens(text) matches Some(tokens) && tokens.len() <= max_tokens
}

/// The outcome of truncating `text` to `max_tokens`, given the tokens of the
/// text and the text that the kept tokens stand for.
pub open spec fn truncation(
    text: Seq<char>,
    max_tokens: int,
    tokens: Option<Seq<u32>>,
    decoded: Option<Seq<char>>,
) -> Result<Seq<char>, TokenizationError> {
    match tokens {
        None => Err(TokenizationError::Unencodable),
        Some(tokens) => match kept_prefix(tokens, max_tokens) {
            None => Ok(text),
            Some(_) => match decoded {
                Some(shorter) => Ok(shorter),
                None => Err(TokenizationError::Undecodable),
            },
        },
    }
}

/// The outcome of truncating `text` to `max_tokens` with a tokenizer at
/// hand.
pub open spec fn truncated(text: Seq<char>, max_tokens: int) -> Result<
    Seq<char>,
    TokenizationError,
> {
    let decoded = match cl100k_tokens(text) {
        Some(tokens) => cl100k_text(tokens.take(max_tokens)),
        None => None,
    };
    truncation(text, max_tokens, cl100k_tokens(text), decoded)
}

/// What a truncation returned, as a value of the model.
pub open spec fn outcome_view(r: Result<String, TokenizationError>) -> Result<
    Seq<char>,
    TokenizationError,
> {
    match r {
        Ok(text) => Ok(text@),
        Err(e) => Err(e),
    }
}

/// The number of tokens that a budget of `max_tokens` leaves of `tokens`.
pub open spec fn kept_len(tokens: Seq<u32>, max_tokens: int) -> int {
    match kept_prefix(tokens, max_tokens) {
        Some(prefix) => prefix.len() as int,
        None => tokens.len() as int,
    }
}

/// A larger budget never keeps fewer tokens, and no budget keeps more
/// tokens than there are.
pub proof fn lemma_kept_len_monotone(tokens: Seq<u32>, smaller: int, larger: int)
    requires
        0 <= smaller < larger,
    ensures
        kept_len(tokens, smaller) <= kept_len(tokens, larger) <= tokens.len(),
        kept_len(tokens, smaller) <= smaller || kept_len(tokens, smaller) == tokens.len(),
{
}

/// `tiktoken_rs::cl100k_base`: builds the tokenizer from the vocabulary that
/// the outside crate carries. Nothing is promised of its success.
#[verifier::external_body]
fn load_cl100k() -> (r: Result<Tokenizer, anyhow::Error>) {
    tiktoken_rs::cl100k_base().map(|bpe| Tokenizer { bpe })
}

/// `CoreBPE::encode` with all special tokens allowed, which is what
/// `CoreBPE::encode_with_special_tokens` computes, but with the tokenizer's
/// failure handed back as `Err`: the tokens of `text`, which depend on the
/// text alone.
#[verifier::external_body]
fn encode(tokenizer: &Tokenizer, text: &str) -> (r: Result<Vec<u32>, tiktoken_rs::EncodeError>)
    ensures
        match r {
            Ok(tokens) => cl100k_tokens(text@) == Some(tokens@),
            Err(_) => cl100k_tokens(text@) is None,
        },
{
    tokenizer.bpe.encode(text, &tokenizer.bpe.special_tokens()).map(|found| found.0)
}

/// `CoreBPE::decode`: the text whose UTF-8 bytes are the bytes of `tokens`,
/// one token after the other; `Err` where those bytes are no UTF-8 text or a
/// token is unknown. It depends on the tokens alone.
#[verifier::external_body]
fn decode(tokenizer: &Tokenizer, tokens: &Vec<u32>) -> (r: Result<String, anyhow::Error>)
    ensures
        match r {
            Ok(text) => cl100k_text(tokens@) == Some(text@),
            Err(_) => cl100k_text(tokens@) is None,
        },
{
    tokenizer.bpe.decode(tokens)
}

/// Decides what a budget of `max_tokens` leaves of `tokens`: `None` where
/// all of them fit, else the first `max_tokens` of them.
pub fn over_budget_prefix(tokens: &Vec<u32>, max_tokens: usize) -> (r: Option<Vec<u32>>)
    ensures
        r is None <==> tokens@.len() <= max_tokens,
        match r {
            Some(prefix) => kept_prefix(tokens@, max_tokens as int) == Some(prefix@),
            None => kept_prefix(tokens@, max_tokens as int) is None,
        },
{
    if tokens.len() <= max_tokens {
        return None;
    }
    let mut prefix: Vec<u32> = Vec::new();
    let mut i: usize = 0;
    while i < max_tokens
        invariant
            0 <= i <= max_tokens < tokens@.len(),
            prefix@ == tokens@.take(i as int),
        decreases max_tokens - i,
    {
        prefix.push(tokens[i]);
        assert(tokens@.take(i + 1) =~= tokens@.take(i as int).push(tokens@[i as int]));
        i += 1;
    }
    Some(prefix)
}

impl Tokenizer {
    /// Sets up the `cl100k_base` tokenizer.
    pub fn cl100k() -> (r: Result<Tokenizer, TokenizationError>)
        ensures
            r matches Err(e) ==> e == TokenizationError::Unavailable,
    {
        match load_cl100k() {
            Ok(tokenizer) => Ok(tokenizer),
            Err(_) => Err(TokenizationError::Unavailable),
        }
    }

    /// The number of tokens of `text`.
    pub fn count(&self, text: &str) -> (r: Result<usize, TokenizationError>)
        ensures
            match r {
                Ok(n) => cl100k_tokens(text@) matches Some(tokens) && n == tokens.len(),
                Err(e) => e == TokenizationError::Unencodable && cl100k_tokens(text@) is None,
            },
    {
        match encode(self, text) {
            Ok(tokens) => Ok(tokens.len()),
            Err(_) => Err(TokenizationError::Unencodable),
        }
    }

    /// Truncates `text` to at most `max_tokens` tokens. A text of no more
    /// tokens than that comes back unchanged. Of a longer one the first
    /// `max_tokens` tokens are kept and turned back into text; where they
    /// stand for no text the call fails with `Undecodable`.
    pub fn truncate(&self, text: &str, max_tokens: usize) -> (r: Result<String, TokenizationError>)
        ensures
            outcome_view(r) == truncated(text@, max_tokens as int),
            within_budget(text@, max_tokens as int) ==> outcome_view(r) == Ok::<
                Seq<char>,
                TokenizationError,
            >(text@),
    {
        let tokens = match encode(self, text) {
            Ok(tokens) => tokens,
            Err(_) => {
                return Err(TokenizationError::Unencodable);
            },
        };
        match over_budget_prefix(&tokens, max_tokens) {
            None => Ok(text.to_owned()),
            Some(prefix) => match decode(self, &prefix) {
                Ok(shorter) => Ok(shorter),
                Err(_) => Err(TokenizationError::Undecodable),
            },
        }
    }
}

/// Truncates `log_data` to at most `max_tokens` tokens of the `cl100k_base`
/// vocabulary. Fails with `Unavailable` where the tokenizer cannot be set up;
/// otherwise the outcome is that of `Tokenizer::truncate`. In particular a
/// text of no more than `max_tokens` tokens comes back unchanged.
pub fn optimize_log_data(log_data: &str, max_tokens: usize) -> (r: Result<
    String,
    TokenizationError,
>)
    ensures
        r == Err::<String, TokenizationError>(TokenizationError::Unavailable) || outcome_view(r)
            == truncated(log_data@, max_tokens as int),
        within_budget(log_data@, max_tokens as int) ==> r == Err::<String, TokenizationError>(
            TokenizationError::Unavailable,
        ) || outcome_view(r) == Ok::<Seq<char>, TokenizationError>(log_data@),
{
    match Tokenizer::cl100k() {
        Ok(tokenizer) => tokenizer.truncate(log_data, max_tokens),
        Err(e) => Err(e),
    }
}

} // verus!
