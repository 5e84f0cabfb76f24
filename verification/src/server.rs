//! What the service answers: the health report, and the reply to a request
//! for embeddings. Transport and encoding are the caller's.

use crate::cache::{ModelCache, Slot};
use crate::device::{device_label, device_text};
use crate::embedder::{is_embedding_run, is_weights_failure, Embedder};
use crate::error::{is_invalid_input, is_model_not_found, Error};
use crate::foreign::DenseTensor;
use crate::store::{tensor_dims, texts_of};
use candle_core::Device;
use vstd::prelude::*;
use vstd::string::*;

verus! {

/// The body of a health report.
#[derive(Debug)]
pub struct HealthResponse {
    /// Always `ok` while the process answers.
    pub status: String,
    /// The identifiers of the models that are loaded.
    pub loaded_models: Vec<String>,
    /// The device the service computes on.
    pub device: String,
}

/// The body of a request for embeddings.
#[derive(Debug)]
pub struct EmbedRequest {
    /// The identifier of the model to embed with.
    pub model: String,
    /// The texts to embed.
    pub input: Vec<String>,
}

/// The reply to a request for embeddings, before its numbers are written out.
pub struct EmbedReply {
    /// The identifier the request named.
    pub model: String,
    /// The number of components of each vector.
    pub dimension: usize,
    /// One vector per text of the request, in the order of the texts.
    pub embeddings: Vec<DenseTensor>,
}

/// What is reported of a request without texts.
pub open spec fn empty_request_text() -> Seq<char> {
    "Input cannot be empty"@
}

impl EmbedRequest {
    /// Refuses a request without texts, with `InvalidInput`.
    pub fn validate(&self) -> (checked: Result<(), Error>)
        ensures
            match checked {
                Ok(_) => self.input@.len() > 0,
                Err(e) => self.input@.len() == 0 && is_invalid_input(e, empty_request_text()),
            },
    {
        if self.input.len() == 0 {
            Err(Error::InvalidInput(String::from_str("Input cannot be empty")))
        } else {
            Ok(())
        }
    }
}

/// `reply` answers `request` with vectors of `width` components.
pub open spec fn answers(reply: EmbedReply, request: EmbedRequest, width: usize) -> bool {
    &&& reply.model@ == request.model@
    &&& reply.dimension == width
    &&& reply.embeddings@.len() == request.input@.len()
    &&& forall|i: int|
        0 <= i < reply.embeddings@.len() ==> tensor_dims(#[trigger] reply.embeddings@[i]) == seq![
            width,
        ]
}

/// Reports the state of the service: that it answers, which models are
/// loaded, and what it computes on.
pub fn health_report(cache: &ModelCache, device: &Device) -> (report: HealthResponse)
    ensures
        report.status@ == "ok"@,
        report.device@ == device_text(*device),
        texts_of(report.loaded_models@).no_duplicates(),
        forall|id: Seq<char>|
            texts_of(report.loaded_models@).contains(id) <==> cache.phase(id) is Ready,
{
    HealthResponse {
        status: String::from_str("ok"),
        loaded_models: cache.loaded_models(),
        device: device_label(device),
    }
}

/// Embeds the texts of a request with a loaded model, from the weight
/// container the model is served from. The reply names the model of the
/// request and holds one vector per text, in order, each with as many
/// components as the reply says. A request without texts fails with
/// `InvalidInput` before anything else is looked at.
pub fn embed_with(embedder: &Embedder, weights: &[u8], request: &EmbedRequest) -> (reply: Result<
    EmbedReply,
    Error,
>)
    ensures
        request.input@.len() == 0 ==> reply is Err && is_invalid_input(
            reply->Err_0,
            empty_request_text(),
        ),
        reply matches Ok(r) ==> answers(r, *request, embedder.width()) && is_embedding_run(
            weights@,
            embedder.width(),
            embedder.processor(),
            request.input@.len(),
            r.embeddings@,
        ),
        reply matches Err(e) ==> request.input@.len() > 0 ==> e is ModelLoadFailed
            || e is EmbeddingError,
        reply matches Err(e) ==> request.input@.len() > 0 && e is ModelLoadFailed
            ==> is_weights_failure(weights@, embedder.width(), embedder.processor(), e),
{
    request.validate()?;
    let embeddings = embedder.embed(weights, request.input.as_slice())?;
    Ok(EmbedReply { model: request.model.clone(), dimension: embedder.embedding_dim(), embeddings })
}

/// The embedder that serves a request: the one that is ready under the
/// identifier the request names. A request without texts fails with
/// `InvalidInput`; one that names a model that is not ready fails with
/// `ModelNotFound`.
pub fn embedder_for<'a>(cache: &'a ModelCache, request: &EmbedRequest) -> (found: Result<
    &'a Embedder,
    Error,
>)
    ensures
        match found {
            Ok(embedder) => request.input@.len() > 0 && cache.phase(request.model@) is Ready
                && cache@[request.model@] == Slot::Ready(*embedder),
            Err(e) => if request.input@.len() == 0 {
                is_invalid_input(e, empty_request_text())
            } else {
                !(cache.phase(request.model@) is Ready) && is_model_not_found(e, request.model@)
            },
        },
{
    request.validate()?;
    match cache.get(request.model.as_str()) {
        Some(embedder) => Ok(embedder),
        None => Err(Error::ModelNotFound(request.model.clone())),
    }
}

} // verus!
