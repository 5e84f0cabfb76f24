//! Finding the token-embedding matrix among the tensors of a weight container
//! by its name alone, across the naming habits of several model families.

use crate::error::{is_load_failure, Error};
use crate::text::{contains, ends_with, has_infix, has_suffix};
use vstd::prelude::*;
use vstd::string::*;

verus! {

/// The name of a word-embedding table as encoder models of the BERT family
/// write it: it mentions `embeddings` and `word_embeddings` and ends with
/// `weight`.
pub open spec fn is_word_embeddings_name(name: Seq<char>) -> bool {
    &&& has_infix(name, "embeddings"@)
    &&& has_infix(name, "word_embeddings"@)
    &&& has_suffix(name, "weight"@)
}

/// The name of an embedding table as decoder models of the LLaMA family write
/// it.
pub open spec fn is_embed_tokens_name(name: Seq<char>) -> bool {
    has_suffix(name, "embed_tokens.weight"@)
}

/// The name of an embedding table as models of the GPT family write it.
pub open spec fn is_wte_name(name: Seq<char>) -> bool {
    has_suffix(name, "wte.weight"@)
}

/// A tensor name that any of the three conventions accepts.
pub open spec fn is_embedding_name(name: Seq<char>) -> bool {
    is_word_embeddings_name(name) || is_embed_tokens_name(name) || is_wte_name(name)
}

/// `at` is the first position of `names` that holds an embedding name.
pub open spec fn is_first_embedding_name(names: Seq<String>, at: int) -> bool {
    &&& 0 <= at < names.len()
    &&& is_embedding_name(names[at]@)
    &&& forall|j: int| 0 <= j < at ==> !is_embedding_name(#[trigger] names[j]@)
}

/// No position of `names` holds an embedding name.
pub open spec fn has_no_embedding_name(names: Seq<String>) -> bool {
    forall|j: int| 0 <= j < names.len() ==> !is_embedding_name(#[trigger] names[j]@)
}

/// What the search reports when nothing matches.
pub open spec fn not_found_text() -> Seq<char> {
    "Could not find embedding weight tensor"@
}

/// Decides whether a tensor name follows the BERT convention.
pub fn matches_word_embeddings(name: &str) -> (hit: bool)
    ensures
        hit == is_word_embeddings_name(name@),
{
    contains(name, "embeddings") && contains(name, "word_embeddings") && ends_with(name, "weight")
}

/// Decides whether a tensor name follows the LLaMA convention.
pub fn matches_embed_tokens(name: &str) -> (hit: bool)
    ensures
        hit == is_embed_tokens_name(name@),
{
    ends_with(name, "embed_tokens.weight")
}

/// Decides whether a tensor name follows the GPT convention.
pub fn matches_wte(name: &str) -> (hit: bool)
    ensures
        hit == is_wte_name(name@),
{
    ends_with(name, "wte.weight")
}

/// Decides whether a tensor name is that of a token-embedding matrix under any
/// of the three conventions.
pub fn matches_embedding_name(name: &str) -> (hit: bool)
    ensures
        hit == is_embedding_name(name@),
{
    matches_word_embeddings(name) || matches_embed_tokens(name) || matches_wte(name)
}

/// The position of the first embedding name in `names`, if there is one.
pub fn find_embedding_name(names: &Vec<String>) -> (found: Option<usize>)
    ensures
        match found {
            Some(at) => is_first_embedding_name(names@, at as int),
            None => has_no_embedding_name(names@),
        },
{
    let mut i: usize = 0;
    while i < names.len()
        invariant
            i <= names.len(),
            forall|j: int| 0 <= j < i ==> !is_embedding_name(#[trigger] names@[j]@),
        decreases names.len() - i,
    {
        if matches_embedding_name(names[i].as_str()) {
            return Some(i);
        }
        i += 1;
    }
    None
}

/// The first name in `names` that is an embedding name. The order of `names`
/// decides between several candidates; when none qualifies the model cannot
/// be loaded.
pub fn locate_embedding_name(names: &Vec<String>) -> (located: Result<String, Error>)
    ensures
        match located {
            Ok(name) => exists|at: int|
                is_first_embedding_name(names@, at) && name@ == (#[trigger] names@[at])@,
            Err(e) => has_no_embedding_name(names@) && is_load_failure(e, not_found_text()),
        },
{
    match find_embedding_name(names) {
        Some(at) => Ok(names[at].clone()),
        None => Err(no_embedding_name()),
    }
}

/// The error for a listing in which no name is an embedding name.
pub fn no_embedding_name() -> (e: Error)
    ensures
        is_load_failure(e, not_found_text()),
{
    Error::ModelLoadFailed(String::from_str("Could not find embedding weight tensor"))
}

} // verus!
