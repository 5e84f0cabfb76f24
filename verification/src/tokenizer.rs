//! The tokenizer adapter: text in, token ids out.

use crate::error::{is_embedding_failure, labelled, Error};
use crate::text::has_prefix;
use tokenizers::Tokenizer;
use vstd::prelude::*;

verus! {

/// The tokenizer that a text describes, or `None` where the text describes
/// none.
pub uninterp spec fn tokenizer_described(description: Seq<char>) -> Option<Tokenizer>;

/// `<Tokenizer as FromStr>::from_str`: builds a tokenizer from the JSON text
/// of its description. Assumed: whether a text is accepted, and the tokenizer
/// it gives, depend on the text alone. A rejection comes back as the decoder's
/// own words, of which nothing is assumed.
#[verifier::external_body]
fn tokenizer_from_str(description: &str) -> (built: Result<Tokenizer, String>)
    ensures
        match built {
            Ok(tokenizer) => tokenizer_described(description@) == Some(tokenizer),
            Err(_) => tokenizer_described(description@) is None,
        },
{
    description.parse::<Tokenizer>().map_err(|e| e.to_string())
}

/// `Tokenizer::encode` on a single text, then `Encoding::get_ids`. Nothing is
/// assumed of the ids: a tokenizer may be configured to choose at random
/// between segmentations. A failure comes back as the tokenizer's own words.
#[verifier::external_body]
fn tokenizer_encode(tokenizer: &Tokenizer, text: &str, add_special_tokens: bool) -> (encoded:
    Result<Vec<u32>, String>) {
    tokenizer.encode(text, add_special_tokens).map(|e| e.get_ids().to_vec()).map_err(
        |e| e.to_string(),
    )
}

/// What introduces the decoder's words when a tokenizer cannot be built.
pub open spec fn tokenizer_failure_heading() -> Seq<char> {
    "Failed to load tokenizer: "@
}

/// What introduces the tokenizer's words when a text cannot be encoded.
pub open spec fn encode_failure_heading() -> Seq<char> {
    "Tokenization failed: "@
}

/// Turns a text into the sequence of its token ids.
pub struct TokenizerAdapter {
    inner: Tokenizer,
}

impl TokenizerAdapter {
    /// The tokenizer the adapter works with.
    pub closed spec fn tokenizer(&self) -> Tokenizer {
        self.inner
    }

    /// Builds the adapter from the JSON description of a tokenizer. Succeeds
    /// exactly when the text describes a tokenizer, and then works with that
    /// one; any other text fails with `ModelLoadFailed`.
    pub fn from_json(description: &str) -> (built: Result<TokenizerAdapter, Error>)
        ensures
            match built {
                Ok(adapter) => tokenizer_described(description@) == Some(adapter.tokenizer()),
                Err(e) => tokenizer_described(description@) is None && e is ModelLoadFailed
                    && has_prefix(e.detail(), tokenizer_failure_heading()),
            },
    {
        match tokenizer_from_str(description) {
            Ok(inner) => Ok(TokenizerAdapter { inner }),
            Err(words) => Err(tokenizer_failure(words.as_str())),
        }
    }

    /// The token ids of `text`, with the special tokens that the tokenizer
    /// puts around a sequence. A text that cannot be encoded fails with
    /// `EmbeddingError`.
    pub fn encode(&self, text: &str) -> (encoded: Result<Vec<u32>, Error>)
        ensures
            encoded matches Err(e) ==> e is EmbeddingError && has_prefix(
                e.detail(),
                encode_failure_heading(),
            ),
    {
        let reported = encoding_outcome(tokenizer_encode(&self.inner, text, true));
        proof {
            if reported is Err {
                assert(reported->Err_0.detail().subrange(
                    0,
                    encode_failure_heading().len() as int,
                ) == encode_failure_heading());
            }
        }
        reported
    }
}

/// What an encoding comes to, given what the tokenizer answered: its ids as
/// they are, or an `EmbeddingError` that repeats the tokenizer's words.
pub fn encoding_outcome(answer: Result<Vec<u32>, String>) -> (encoded: Result<Vec<u32>, Error>)
    ensures
        match answer {
            Ok(ids) => encoded == Ok::<Vec<u32>, Error>(ids),
            Err(words) => encoded matches Err(e) && is_embedding_failure(
                e,
                encode_failure_heading() + words@,
            ),
        },
{
    match answer {
        Ok(ids) => Ok(ids),
        Err(words) => Err(Error::EmbeddingError(labelled("Tokenization failed: ", words.as_str()))),
    }
}

/// The error for a tokenizer description that could not be read or decoded,
/// with the reason in `words`.
pub fn tokenizer_failure(words: &str) -> (e: Error)
    ensures
        e is ModelLoadFailed,
        e.detail() == tokenizer_failure_heading() + words@,
        has_prefix(e.detail(), tokenizer_failure_heading()),
{
    let detail = labelled("Failed to load tokenizer: ", words);
    assert(detail@.subrange(0, tokenizer_failure_heading().len() as int)
        == tokenizer_failure_heading());
    Error::ModelLoadFailed(detail)
}

} // verus!
