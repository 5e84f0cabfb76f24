//! The configuration record of a model: which of its fields give the width of
//! an embedding vector, and what the merely descriptive fields default to.

use crate::error::{is_load_failure, labelled, Error};
use crate::text::has_prefix;
use vstd::prelude::*;
use vstd::string::*;

verus! {

/// The document that a text denotes, or `None` where it is not JSON.
pub uninterp spec fn json_document(text: Seq<char>) -> Option<serde_json::Value>;

/// The keys of a document's top-level object, each with the unsigned integer
/// it holds, or `None` where it holds anything else. Empty for a document that
/// is not an object.
pub uninterp spec fn json_unsigned_members(doc: serde_json::Value) -> Map<Seq<char>, Option<u64>>;

/// The keys of a document's top-level object, each with the string it holds,
/// or `None` where it holds anything else. Empty for a document that is not an
/// object.
pub uninterp spec fn json_text_members(doc: serde_json::Value) -> Map<Seq<char>, Option<Seq<char>>>;

/// `serde_json::from_str` at type `Value`. Assumed: whether a text parses, and
/// the document it parses to, depend on the text alone. A rejection comes back
/// as the parser's own words, of which nothing is assumed.
#[verifier::external_body]
fn parse_json(text: &str) -> (parsed: Result<serde_json::Value, String>)
    ensures
        match parsed {
            Ok(doc) => json_document(text@) == Some(doc),
            Err(_) => json_document(text@) is None,
        },
{
    serde_json::from_str::<serde_json::Value>(text).map_err(|e| e.to_string())
}

/// `Value::get` with a string key, then `Value::as_u64` on what it finds.
/// Assumed: the outer `Option` tells whether the document is an object with
/// that key, the inner one whether the member is a number that `u64` holds.
#[verifier::external_body]
fn member_as_u64(doc: &serde_json::Value, key: &str) -> (member: Option<Option<u64>>)
    ensures
        member == (if json_unsigned_members(*doc).dom().contains(key@) {
            Some(json_unsigned_members(*doc)[key@])
        } else {
            None
        }),
{
    doc.get(key).map(|v| v.as_u64())
}

/// `Value::get` with a string key, then `Value::as_str` on what it finds.
/// Assumed: the outer `Option` tells whether the document is an object with
/// that key, the inner one whether the member is a string.
#[verifier::external_body]
fn member_as_text(doc: &serde_json::Value, key: &str) -> (member: Option<Option<String>>)
    ensures
        match member {
            Some(Some(s)) => json_text_members(*doc).dom().contains(key@) && json_text_members(
                *doc,
            )[key@] == Some(s@),
            Some(None) => json_text_members(*doc).dom().contains(key@) && json_text_members(
                *doc,
            )[key@] is None,
            None => !json_text_members(*doc).dom().contains(key@),
        },
{
    doc.get(key).map(|v| v.as_str().map(|s| s.to_owned()))
}

/// What a document holds under `key`, read as an unsigned integer.
pub open spec fn unsigned_member(doc: serde_json::Value, key: Seq<char>) -> Option<Option<u64>> {
    if json_unsigned_members(doc).dom().contains(key) {
        Some(json_unsigned_members(doc)[key])
    } else {
        None
    }
}

/// What a document holds under `key`, read as a string.
pub open spec fn text_member(doc: serde_json::Value, key: Seq<char>) -> Option<Option<Seq<char>>> {
    if json_text_members(doc).dom().contains(key) {
        Some(json_text_members(doc)[key])
    } else {
        None
    }
}

/// One numeric field of a configuration record, as found.
#[derive(Clone, Copy, Debug, PartialEq, Eq, Structural)]
pub enum ConfigField {
    /// The record has no such key.
    Absent,
    /// The key is there, with something other than an unsigned integer.
    Unusable,
    /// The key is there with this value.
    Unsigned(u64),
}

impl ConfigField {
    /// The field that a lookup result stands for.
    pub open spec fn of(member: Option<Option<u64>>) -> ConfigField {
        match member {
            None => ConfigField::Absent,
            Some(None) => ConfigField::Unusable,
            Some(Some(n)) => ConfigField::Unsigned(n),
        }
    }

    /// Classifies a lookup result.
    pub fn from_member(member: Option<Option<u64>>) -> (field: ConfigField)
        ensures
            field == ConfigField::of(member),
    {
        match member {
            None => ConfigField::Absent,
            Some(None) => ConfigField::Unusable,
            Some(Some(n)) => ConfigField::Unsigned(n),
        }
    }

    /// This field where it is present, else the other.
    pub open spec fn or(self, other: ConfigField) -> ConfigField {
        if self is Absent {
            other
        } else {
            self
        }
    }
}

/// The number of layers assumed where a record names none.
pub const DEFAULT_LAYERS: u64 = 12;

/// The number of attention heads assumed where a record names none.
pub const DEFAULT_HEADS: u64 = 12;

/// The architecture assumed where a record names none.
pub open spec fn default_model_type() -> Seq<char> {
    "bert"@
}

/// What is reported when no field gives the width.
pub open spec fn no_dimension_text() -> Seq<char> {
    "Could not determine embedding dimension"@
}

/// What introduces the parser's words when a record is not JSON.
pub open spec fn parse_failure_heading() -> Seq<char> {
    "Failed to parse config: "@
}

/// The width that three fields give: that of the first one present, in the
/// order `hidden_size`, `n_embd`, `dim`, provided it is an unsigned integer
/// that `usize` holds. A field that is present but unusable is not skipped.
pub open spec fn chosen_dimension(
    hidden_size: ConfigField,
    n_embd: ConfigField,
    dim: ConfigField,
) -> Option<usize> {
    match hidden_size.or(n_embd).or(dim) {
        ConfigField::Unsigned(n) => if n <= usize::MAX {
            Some(n as usize)
        } else {
            None
        },
        _ => None,
    }
}

/// Picks the embedding width from the three fields that may name it; see
/// [`chosen_dimension`]. Fails with `ModelLoadFailed` where they give none.
pub fn select_dimension(hidden_size: ConfigField, n_embd: ConfigField, dim: ConfigField) -> (width:
    Result<usize, Error>)
    ensures
        match width {
            Ok(n) => chosen_dimension(hidden_size, n_embd, dim) == Some(n),
            Err(e) => chosen_dimension(hidden_size, n_embd, dim) is None && is_load_failure(
                e,
                no_dimension_text(),
            ),
        },
{
    let first = match hidden_size {
        ConfigField::Absent => match n_embd {
            ConfigField::Absent => dim,
            _ => n_embd,
        },
        _ => hidden_size,
    };
    match first {
        ConfigField::Unsigned(n) => {
            if n <= usize::MAX as u64 {
                Ok(n as usize)
            } else {
                Err(no_dimension())
            }
        },
        _ => Err(no_dimension()),
    }
}

fn no_dimension() -> (e: Error)
    ensures
        is_load_failure(e, no_dimension_text()),
{
    Error::ModelLoadFailed(String::from_str("Could not determine embedding dimension"))
}

/// A model's configuration, decoded once when the model is loaded.
#[derive(Debug)]
pub struct ModelConfig {
    /// Width of one embedding vector.
    pub embedding_dim: usize,
    /// Architecture family. Descriptive only.
    pub model_type: String,
    /// Number of layers. Descriptive only.
    pub num_layers: u64,
    /// Number of attention heads. Descriptive only.
    pub num_heads: u64,
}

/// The width that a document gives.
pub open spec fn document_dimension(doc: serde_json::Value) -> Option<usize> {
    chosen_dimension(
        ConfigField::of(unsigned_member(doc, "hidden_size"@)),
        ConfigField::of(unsigned_member(doc, "n_embd"@)),
        ConfigField::of(unsigned_member(doc, "dim"@)),
    )
}

/// The unsigned value under `key`, or `fallback` where the key is missing or
/// holds something else.
pub open spec fn unsigned_or(doc: serde_json::Value, key: Seq<char>, fallback: u64) -> u64 {
    match unsigned_member(doc, key) {
        Some(Some(n)) => n,
        _ => fallback,
    }
}

/// The string under `key`, or `fallback` where the key is missing or holds
/// something else.
pub open spec fn text_or(doc: serde_json::Value, key: Seq<char>, fallback: Seq<char>) -> Seq<char> {
    match text_member(doc, key) {
        Some(Some(s)) => s,
        _ => fallback,
    }
}

impl ModelConfig {
    /// `self` is what `doc` decodes to.
    pub open spec fn decodes(self, doc: serde_json::Value) -> bool {
        &&& document_dimension(doc) == Some(self.embedding_dim)
        &&& self.model_type@ == text_or(doc, "model_type"@, default_model_type())
        &&& self.num_layers == unsigned_or(doc, "num_hidden_layers"@, DEFAULT_LAYERS)
        &&& self.num_heads == unsigned_or(doc, "num_attention_heads"@, DEFAULT_HEADS)
    }

    /// Decodes a configuration document. The width comes from the first
    /// present of `hidden_size`, `n_embd` and `dim`; the descriptive fields
    /// fall back to their defaults and never make decoding fail.
    pub fn from_document(doc: &serde_json::Value) -> (decoded: Result<ModelConfig, Error>)
        ensures
            match decoded {
                Ok(config) => config.decodes(*doc),
                Err(e) => document_dimension(*doc) is None && is_load_failure(
                    e,
                    no_dimension_text(),
                ),
            },
    {
        let hidden_size = ConfigField::from_member(member_as_u64(doc, "hidden_size"));
        let n_embd = ConfigField::from_member(member_as_u64(doc, "n_embd"));
        let dim = ConfigField::from_member(member_as_u64(doc, "dim"));
        let embedding_dim = select_dimension(hidden_size, n_embd, dim)?;
        let model_type = match member_as_text(doc, "model_type") {
            Some(Some(s)) => s,
            _ => String::from_str("bert"),
        };
        let num_layers = match member_as_u64(doc, "num_hidden_layers") {
            Some(Some(n)) => n,
            _ => DEFAULT_LAYERS,
        };
        let num_heads = match member_as_u64(doc, "num_attention_heads") {
            Some(Some(n)) => n,
            _ => DEFAULT_HEADS,
        };
        Ok(ModelConfig { embedding_dim, model_type, num_layers, num_heads })
    }

    /// Decodes the text of a configuration file. A text that is not JSON fails
    /// with `ModelLoadFailed` and the parser's words; one that is JSON decodes
    /// as [`ModelConfig::from_document`] says.
    pub fn parse(text: &str) -> (decoded: Result<ModelConfig, Error>)
        ensures
            match json_document(text@) {
                Some(doc) => match decoded {
                    Ok(config) => config.decodes(doc),
                    Err(e) => document_dimension(doc) is None && is_load_failure(
                        e,
                        no_dimension_text(),
                    ),
                },
                None => decoded is Err && decoded->Err_0 is ModelLoadFailed && has_prefix(
                    decoded->Err_0.detail(),
                    parse_failure_heading(),
                ),
            },
    {
        match parse_json(text) {
            Ok(doc) => ModelConfig::from_document(&doc),
            Err(words) => {
                let detail = labelled("Failed to parse config: ", words.as_str());
                assert(detail@.subrange(0, parse_failure_heading().len() as int)
                    == parse_failure_heading());
                Err(Error::ModelLoadFailed(detail))
            },
        }
    }
}

} // verus!
