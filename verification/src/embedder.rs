//! The embedder: a loaded model that turns texts into embedding vectors by
//! tokenizing each text, gathering the rows of its tokens from the embedding
//! matrix, and pooling them.

use crate::error::{is_invalid_input, is_load_failure, labelled, Error};
use crate::foreign::DenseTensor;
use crate::locator::{find_embedding_name, is_embedding_name, no_embedding_name, not_found_text};
use crate::matrix::{
    bad_matrix_text, bad_token_text, embedding_of, gathered, ids_embeddable, ids_in_vocabulary,
    is_matrix_shape, matrix_rows, no_tokens_text, pool_rows, EmbeddingMatrix,
};
use crate::model_config::{
    document_dimension, json_document, no_dimension_text, parse_failure_heading, ModelConfig,
};
use crate::registry::ModelInfo;
use crate::store::{
    buffer_container, buffer_shapes, decoded_tensor, descriptor_names, load_failure_heading,
    names_of, open_failure_heading, tensor_dims, TensorStore,
};
use crate::text::has_prefix;
use crate::tokenizer::{
    encode_failure_heading, tokenizer_described, tokenizer_failure, tokenizer_failure_heading,
    TokenizerAdapter,
};
use tokenizers::Tokenizer;
use candle_core::Device;
use vstd::prelude::*;
use vstd::string::*;

verus! {

/// Which of the two weight files of a model directory a model is served from.
#[derive(Clone, Copy, Debug, PartialEq, Eq, Structural)]
pub enum WeightsFile {
    /// The mappable container, `model.safetensors`.
    Canonical,
    /// The pickled container, `pytorch_model.bin`.
    Legacy,
}

/// The name of a model's configuration file.
pub open spec fn config_file_name() -> Seq<char> {
    "config.json"@
}

/// The name of a model's tokenizer description.
pub open spec fn tokenizer_file_name() -> Seq<char> {
    "tokenizer.json"@
}

impl WeightsFile {
    /// The file's name within the model directory.
    pub open spec fn name(self) -> Seq<char> {
        match self {
            WeightsFile::Canonical => "model.safetensors"@,
            WeightsFile::Legacy => "pytorch_model.bin"@,
        }
    }

    /// The file to serve from: the canonical one where the directory has it,
    /// the legacy one otherwise.
    pub open spec fn preferred(has_canonical: bool) -> WeightsFile {
        if has_canonical {
            WeightsFile::Canonical
        } else {
            WeightsFile::Legacy
        }
    }

    /// The file's name within the model directory.
    pub fn file_name(&self) -> (name: &'static str)
        ensures
            name@ == self.name(),
    {
        match self {
            WeightsFile::Canonical => "model.safetensors",
            WeightsFile::Legacy => "pytorch_model.bin",
        }
    }

    /// Chooses the file to serve from, given whether the canonical one exists.
    pub fn prefer(has_canonical: bool) -> (file: WeightsFile)
        ensures
            file == WeightsFile::preferred(has_canonical),
    {
        if has_canonical {
            WeightsFile::Canonical
        } else {
            WeightsFile::Legacy
        }
    }
}

/// The name of the configuration file within a model directory.
pub fn config_file() -> (name: &'static str)
    ensures
        name@ == config_file_name(),
{
    "config.json"
}

/// The name of the tokenizer description within a model directory.
pub fn tokenizer_file() -> (name: &'static str)
    ensures
        name@ == tokenizer_file_name(),
{
    "tokenizer.json"
}

/// What was found in a model directory. A file that could not be read is
/// given by the reason.
pub struct ModelFiles {
    /// The text of the configuration file.
    pub config: Result<String, String>,
    /// The text of the tokenizer description.
    pub tokenizer: Result<String, String>,
    /// Whether the canonical weight file exists.
    pub has_canonical_weights: bool,
}

/// What introduces the reason when the configuration file cannot be read.
pub open spec fn read_failure_heading() -> Seq<char> {
    "Failed to read config: "@
}

/// What is reported of an empty list of texts.
pub open spec fn empty_input_text() -> Seq<char> {
    "Empty input texts"@
}

/// `name` is a candidate for the embedding matrix of a buffer: the buffer is
/// a well-formed container, it holds a tensor under `name`, and `name` is an
/// embedding name.
pub open spec fn is_candidate(bytes: Seq<u8>, name: Seq<char>) -> bool {
    buffer_shapes(bytes) matches Some(shapes) && shapes.dom().contains(name) && is_embedding_name(
        name,
    )
}

/// A buffer has a candidate for the embedding matrix.
pub open spec fn holds_embedding_name(bytes: Seq<u8>) -> bool {
    exists|name: Seq<char>| is_candidate(bytes, name)
}

/// The shape that the header of a buffer declares for a tensor.
pub open spec fn declared_shape(bytes: Seq<u8>, name: Seq<char>) -> Seq<usize> {
    buffer_shapes(bytes)->Some_0[name]
}

/// The number of rows that the header of a buffer declares for a tensor.
pub open spec fn vocabulary_of(bytes: Seq<u8>, name: Seq<char>) -> usize {
    declared_shape(bytes, name)[0]
}

/// The embedding matrix that a candidate gives for a model of `width`
/// components on `device`: the tensor decoded under the name, provided its
/// declared shape is that of a matrix of `width` columns. `None` where the
/// name is no candidate, the shape is another, or the tensor cannot be
/// decoded.
pub open spec fn matrix_of(bytes: Seq<u8>, name: Seq<char>, width: usize, device: Device) -> Option<
    DenseTensor,
> {
    if is_candidate(bytes, name) && is_matrix_shape(declared_shape(bytes, name), width) {
        decoded_tensor(buffer_container(bytes)->Some_0, name, device)
    } else {
        None
    }
}

/// The rows that a token sequence gathers from the matrix of a candidate.
pub open spec fn rows_of(
    bytes: Seq<u8>,
    name: Seq<char>,
    width: usize,
    device: Device,
    ids: Seq<u32>,
) -> Option<DenseTensor> {
    match matrix_of(bytes, name, width, device) {
        Some(matrix) => if ids_embeddable(ids, vocabulary_of(bytes, name)) {
            gathered(matrix, ids, device)
        } else {
            None
        },
        None => None,
    }
}

/// The vector that a token sequence embeds to against the matrix of a
/// candidate: its rows gathered, then pooled.
pub open spec fn vector_of(
    bytes: Seq<u8>,
    name: Seq<char>,
    width: usize,
    device: Device,
    ids: Seq<u32>,
) -> Option<DenseTensor> {
    match matrix_of(bytes, name, width, device) {
        Some(matrix) => embedding_of(matrix, vocabulary_of(bytes, name), width, ids, device),
        None => None,
    }
}

/// Each vector is the embedding of the token sequence at its own position,
/// all against the matrix of one candidate.
pub open spec fn embeds_each(
    bytes: Seq<u8>,
    name: Seq<char>,
    width: usize,
    device: Device,
    batches: Seq<Vec<u32>>,
    vectors: Seq<DenseTensor>,
) -> bool {
    &&& vectors.len() == batches.len()
    &&& matrix_of(bytes, name, width, device) is Some
    &&& forall|i: int|
        0 <= i < vectors.len() ==> vector_of(bytes, name, width, device, batches[i]@) == Some(
            #[trigger] vectors[i],
        )
}

/// The vectors are the embeddings, in order, of `count` token sequences
/// against the matrix of one candidate of the buffer.
pub open spec fn is_embedding_run(
    bytes: Seq<u8>,
    width: usize,
    device: Device,
    count: nat,
    vectors: Seq<DenseTensor>,
) -> bool {
    exists|batches: Seq<Vec<u32>>, name: Seq<char>|
        batches.len() == count && is_candidate(bytes, name) && #[trigger] embeds_each(
            bytes,
            name,
            width,
            device,
            batches,
            vectors,
        )
}

/// The buffer has a candidate, and every candidate gives a matrix.
pub open spec fn every_candidate_loads(bytes: Seq<u8>, width: usize, device: Device) -> bool {
    &&& holds_embedding_name(bytes)
    &&& forall|name: Seq<char>|
        is_candidate(bytes, name) ==> #[trigger] matrix_of(bytes, name, width, device) is Some
}

/// The buffer has a candidate, and the token sequence gathers rows from the
/// matrix of every candidate.
pub open spec fn every_candidate_gathers(
    bytes: Seq<u8>,
    width: usize,
    device: Device,
    ids: Seq<u32>,
) -> bool {
    &&& holds_embedding_name(bytes)
    &&& forall|name: Seq<char>|
        is_candidate(bytes, name) ==> #[trigger] rows_of(bytes, name, width, device, ids) is Some
}

/// The buffer has a candidate, every candidate gives a matrix, and every
/// token sequence embeds against each of them.
pub open spec fn every_candidate_embeds(
    bytes: Seq<u8>,
    width: usize,
    device: Device,
    batches: Seq<Vec<u32>>,
) -> bool {
    &&& every_candidate_loads(bytes, width, device)
    &&& forall|name: Seq<char>, i: int|
        is_candidate(bytes, name) && 0 <= i < batches.len() ==> #[trigger] vector_of(
            bytes,
            name,
            width,
            device,
            batches[i]@,
        ) is Some
}

/// Why the matrix of a candidate could not be had: its declared shape is not
/// that of a matrix of the width, or the tensor could not be decoded.
pub open spec fn is_matrix_failure(bytes: Seq<u8>, name: Seq<char>, width: usize, e: Error) -> bool {
    &&& e is ModelLoadFailed
    &&& if is_matrix_shape(declared_shape(bytes, name), width) {
        has_prefix(e.detail(), load_failure_heading())
    } else {
        e.detail() == bad_matrix_text()
    }
}

/// Why a buffer gave no embedding matrix for a model of `width` components
/// on `device`: it is no well-formed container, or it has no candidate, or
/// the matrix of a candidate could not be had.
pub open spec fn is_weights_failure(bytes: Seq<u8>, width: usize, device: Device, e: Error) -> bool {
    &&& e is ModelLoadFailed
    &&& match buffer_shapes(bytes) {
        None => has_prefix(e.detail(), open_failure_heading()),
        Some(_) => if !holds_embedding_name(bytes) {
            e.detail() == not_found_text()
        } else {
            exists|name: Seq<char>|
                is_candidate(bytes, name) && #[trigger] matrix_of(bytes, name, width, device)
                    is None && is_matrix_failure(bytes, name, width, e)
        },
    }
}

/// Why a token sequence could not be embedded against a matrix that was
/// there: it is empty, or an id names no row, or a step could not be done.
pub open spec fn is_sequence_failure(ids: Seq<u32>, vocabulary: usize, e: Error) -> bool {
    &&& e is EmbeddingError
    &&& ids.len() == 0 ==> e.detail() == no_tokens_text()
    &&& ids.len() > 0 && !ids_in_vocabulary(ids, vocabulary) ==> e.detail() == bad_token_text()
}

/// The embedding width that the files of a model give, if they give one: the
/// configuration must be readable, be JSON, and name a width.
pub open spec fn configured_width(files: ModelFiles) -> Option<usize> {
    match files.config {
        Ok(text) => match json_document(text@) {
            Some(doc) => document_dimension(doc),
            None => None,
        },
        Err(_) => None,
    }
}

/// The files of a model can be loaded: the configuration gives a width, and
/// the tokenizer text was read and describes a tokenizer.
pub open spec fn can_load(files: ModelFiles) -> bool {
    &&& configured_width(files) is Some
    &&& files.tokenizer matches Ok(text)
    &&& tokenizer_described(text@) is Some
}

/// What loading reports when the configuration gives no width.
pub open spec fn is_config_failure(files: ModelFiles, e: Error) -> bool {
    match files.config {
        Err(reason) => is_load_failure(e, read_failure_heading() + reason@),
        Ok(text) => match json_document(text@) {
            None => e is ModelLoadFailed && has_prefix(e.detail(), parse_failure_heading()),
            Some(_) => is_load_failure(e, no_dimension_text()),
        },
    }
}

/// What loading reports when the configuration is sound and the tokenizer is
/// not.
pub open spec fn is_tokenizer_failure(files: ModelFiles, e: Error) -> bool {
    &&& e is ModelLoadFailed
    &&& has_prefix(e.detail(), tokenizer_failure_heading())
    &&& files.tokenizer matches Err(reason) ==> e.detail() == tokenizer_failure_heading() + reason@
}

/// A loaded model: its tokenizer, the width of its vectors, and where its
/// weights lie.
pub struct Embedder {
    model_dir: String,
    weights_file: WeightsFile,
    tokenizer: TokenizerAdapter,
    device: Device,
    config: ModelConfig,
}

impl Embedder {
    /// The number of components of each embedding vector.
    pub closed spec fn width(&self) -> usize {
        self.config.embedding_dim
    }

    /// The weight file the model is served from.
    pub closed spec fn source(&self) -> WeightsFile {
        self.weights_file
    }

    /// The directory that holds the model's files.
    pub closed spec fn directory(&self) -> Seq<char> {
        self.model_dir@
    }

    /// The device the model computes on.
    pub closed spec fn processor(&self) -> Device {
        self.device
    }

    /// The tokenizer the model encodes texts with.
    pub closed spec fn tokenizer(&self) -> Tokenizer {
        self.tokenizer.tokenizer()
    }

    /// Builds an embedder from what was found in a model's directory. The
    /// configuration is decoded first and must give the embedding width; then
    /// the weight file is chosen, the canonical one where it exists; then the
    /// tokenizer is built. Every failure is `ModelLoadFailed`.
    pub fn load(model_info: &ModelInfo, device: Device, files: &ModelFiles) -> (loaded: Result<
        Embedder,
        Error,
    >)
        ensures
            loaded is Ok <==> can_load(*files),
            loaded matches Ok(embedder) ==> {
                &&& tokenizer_described(files.tokenizer->Ok_0@) == Some(embedder.tokenizer())
                &&& configured_width(*files) == Some(embedder.width())
                &&& embedder.source() == WeightsFile::preferred(files.has_canonical_weights)
                &&& embedder.directory() == model_info.model_path@
                &&& embedder.processor() == device
            },
            loaded matches Err(e) ==> if configured_width(*files) is None {
                is_config_failure(*files, e)
            } else {
                is_tokenizer_failure(*files, e)
            },
    {
        let config = match &files.config {
            Ok(text) => ModelConfig::parse(text.as_str())?,
            Err(reason) => {
                return Err(
                    Error::ModelLoadFailed(labelled("Failed to read config: ", reason.as_str())),
                );
            },
        };
        let weights_file = WeightsFile::prefer(files.has_canonical_weights);
        let tokenizer = match &files.tokenizer {
            Ok(description) => TokenizerAdapter::from_json(description.as_str())?,
            Err(reason) => {
                return Err(tokenizer_failure(reason.as_str()));
            },
        };
        Ok(
            Embedder {
                model_dir: model_info.model_path.clone(),
                weights_file,
                tokenizer,
                device,
                config,
            },
        )
    }

    /// The number of components of each embedding vector.
    pub fn embedding_dim(&self) -> (dim: usize)
        ensures
            dim == self.width(),
    {
        self.config.embedding_dim
    }

    /// The weight file the model is served from.
    pub fn weights_file(&self) -> (file: WeightsFile)
        ensures
            file == self.source(),
    {
        self.weights_file
    }

    /// The directory that holds the model's files.
    pub fn model_dir(&self) -> (dir: &str)
        ensures
            dir@ == self.directory(),
    {
        self.model_dir.as_str()
    }

    /// The model's configuration as decoded when it was loaded.
    pub fn config(&self) -> (config: &ModelConfig)
        ensures
            config.embedding_dim == self.width(),
    {
        &self.config
    }

    /// The device the model computes on: the one it was loaded onto.
    pub fn device(&self) -> (device: &Device)
        ensures
            *device == self.processor(),
    {
        &self.device
    }

    /// Tokenizes every text, in order. An empty list fails with
    /// `InvalidInput`; a text that cannot be encoded fails with
    /// `EmbeddingError`.
    pub fn tokenize(&self, texts: &[String]) -> (batches: Result<Vec<Vec<u32>>, Error>)
        ensures
            texts@.len() == 0 ==> batches is Err && is_invalid_input(
                batches->Err_0,
                empty_input_text(),
            ),
            batches matches Ok(b) ==> b@.len() == texts@.len() && texts@.len() > 0,
            batches matches Err(e) ==> texts@.len() > 0 ==> e is EmbeddingError && has_prefix(
                e.detail(),
                encode_failure_heading(),
            ),
    {
        if texts.len() == 0 {
            return Err(Error::InvalidInput(String::from_str("Empty input texts")));
        }
        let mut batches: Vec<Vec<u32>> = Vec::new();
        let mut i: usize = 0;
        while i < texts.len()
            invariant
                i <= texts@.len(),
                batches@.len() == i,
            decreases texts@.len() - i,
        {
            let ids = self.tokenizer.encode(texts[i].as_str())?;
            batches.push(ids);
            i += 1;
        }
        Ok(batches)
    }

    /// Finds and decodes the embedding matrix in a weight container. The
    /// tensors are listed; the first in the listing whose name is an embedding
    /// name is the candidate; its declared shape must be that of a matrix as
    /// wide as the model's vectors, or it is not decoded at all. The result is
    /// the matrix of a candidate, as [`matrix_of`] names it; every failure is
    /// `ModelLoadFailed`, as [`is_weights_failure`] says. Where the container
    /// has one candidate, that is the one; where it has several, the order of
    /// the listing decides, which the container does not fix.
    pub fn load_matrix(&self, weights: &[u8]) -> (matrix: Result<EmbeddingMatrix, Error>)
        ensures
            every_candidate_loads(weights@, self.width(), self.processor()) ==> matrix is Ok,
            match matrix {
                Ok(m) => m.width() == self.width() && exists|name: Seq<char>|
                    is_candidate(weights@, name) && #[trigger] matrix_of(
                        weights@,
                        name,
                        self.width(),
                        self.processor(),
                    ) == Some(m.tensor()) && m.vocabulary() == vocabulary_of(weights@, name),
                Err(e) => is_weights_failure(weights@, self.width(), self.processor(), e),
            },
    {
        let store = TensorStore::open(weights)?;
        let listing = store.descriptors();
        let names = descriptor_names(&listing);
        let ghost shapes = store.shapes();
        let ghost listed = names_of(listing@);
        let at = match find_embedding_name(&names) {
            Some(at) => at,
            None => {
                proof {
                    assert forall|name: Seq<char>| !is_candidate(weights@, name) by {
                        if shapes.dom().contains(name) {
                            let i = choose|i: int| 0 <= i < listed.len() && listed[i] == name;
                            assert(names@[i]@ == name);
                        }
                    }
                }
                return Err(no_embedding_name());
            },
        };
        let candidate = &listing[at];
        proof {
            assert(listed[at as int] == candidate.name@);
            assert(listed.contains(candidate.name@));
            assert(shapes[candidate.name@] == candidate.shape@);
            assert(is_candidate(weights@, candidate.name@));
        }
        match matrix_rows(&candidate.shape, self.config.embedding_dim) {
            Ok(_) => {},
            Err(e) => {
                proof {
                    assert(matrix_of(weights@, candidate.name@, self.width(), self.processor())
                        is None);
                }
                return Err(e);
            },
        }
        let tensor = match store.load(candidate.name.as_str(), &self.device) {
            Ok(tensor) => tensor,
            Err(e) => {
                proof {
                    assert(matrix_of(weights@, candidate.name@, self.width(), self.processor())
                        is None);
                }
                return Err(e);
            },
        };
        let made = EmbeddingMatrix::new(tensor, self.config.embedding_dim);
        proof {
            assert(matrix_of(weights@, candidate.name@, self.width(), self.processor()) == Some(
                tensor,
            ));
        }
        made
    }

    /// Gathers the rows of a token sequence from the embedding matrix of a
    /// weight container: one row per token id, in order. The result is what
    /// [`rows_of`] names for a candidate of the container; a failure to get
    /// the matrix is `ModelLoadFailed`, a failure on the sequence
    /// `EmbeddingError`.
    pub fn embed_tokens(&self, weights: &[u8], ids: &[u32]) -> (rows: Result<DenseTensor, Error>)
        ensures
            every_candidate_gathers(weights@, self.width(), self.processor(), ids@) ==> rows is Ok,
            match rows {
                Ok(taken) => tensor_dims(taken) == seq![ids@.len() as usize, self.width()]
                    && exists|name: Seq<char>|
                    is_candidate(weights@, name) && #[trigger] rows_of(
                        weights@,
                        name,
                        self.width(),
                        self.processor(),
                        ids@,
                    ) == Some(taken),
                Err(e) => is_weights_failure(weights@, self.width(), self.processor(), e)
                    || exists|name: Seq<char>|
                    is_candidate(weights@, name) && matrix_of(
                        weights@,
                        name,
                        self.width(),
                        self.processor(),
                    ) is Some && #[trigger] rows_of(
                        weights@,
                        name,
                        self.width(),
                        self.processor(),
                        ids@,
                    ) is None && is_sequence_failure(ids@, vocabulary_of(weights@, name), e),
            },
    {
        let matrix = match self.load_matrix(weights) {
            Ok(matrix) => matrix,
            Err(e) => {
                proof {
                    if holds_embedding_name(weights@) {
                        let missing = choose|name: Seq<char>|
                            is_candidate(weights@, name) && #[trigger] matrix_of(
                                weights@,
                                name,
                                self.width(),
                                self.processor(),
                            ) is None && is_matrix_failure(weights@, name, self.width(), e);
                        assert(rows_of(weights@, missing, self.width(), self.processor(), ids@)
                            is None);
                    }
                }
                return Err(e);
            },
        };
        let ghost name = choose|name: Seq<char>|
            is_candidate(weights@, name) && #[trigger] matrix_of(
                weights@,
                name,
                self.width(),
                self.processor(),
            ) == Some(matrix.tensor()) && matrix.vocabulary() == vocabulary_of(weights@, name);
        let rows = matrix.gather(ids, &self.device);
        proof {
            if rows is Ok {
                assert(rows_of(weights@, name, self.width(), self.processor(), ids@) == Some(
                    rows->Ok_0,
                ));
            } else {
                assert(rows_of(weights@, name, self.width(), self.processor(), ids@) is None);
            }
        }
        rows
    }

    /// Embeds one token sequence: gathers its rows from `matrix` and pools
    /// them into one vector. The result is what [`embedding_of`] names; every
    /// failure is `EmbeddingError`.
    pub fn embed_ids(&self, matrix: &EmbeddingMatrix, ids: &[u32]) -> (vector: Result<
        DenseTensor,
        Error,
    >)
        ensures
            match vector {
                Ok(v) => embedding_of(
                    matrix.tensor(),
                    matrix.vocabulary(),
                    matrix.width(),
                    ids@,
                    self.processor(),
                ) == Some(v) && tensor_dims(v) == seq![matrix.width()],
                Err(e) => embedding_of(
                    matrix.tensor(),
                    matrix.vocabulary(),
                    matrix.width(),
                    ids@,
                    self.processor(),
                ) is None && is_sequence_failure(ids@, matrix.vocabulary(), e),
            },
    {
        let rows = matrix.gather(ids, &self.device)?;
        pool_rows(&rows, matrix.cols())
    }

    /// Embeds token sequences against the embedding matrix of a weight
    /// container: one vector per sequence, in the order of the sequences, each
    /// with as many components as the model's vectors have. The vector at a
    /// position is the embedding of the sequence at that position, as
    /// [`vector_of`] names it, and all are taken against the matrix of one
    /// candidate, which is decoded once. A failure to get the matrix is
    /// `ModelLoadFailed`; the first sequence that cannot be embedded fails the
    /// call with `EmbeddingError`.
    pub fn embed_batches(&self, weights: &[u8], batches: &Vec<Vec<u32>>) -> (vectors: Result<
        Vec<DenseTensor>,
        Error,
    >)
        ensures
            every_candidate_embeds(weights@, self.width(), self.processor(), batches@)
                ==> vectors is Ok,
            match vectors {
                Ok(vs) => {
                    &&& vs@.len() == batches@.len()
                    &&& forall|i: int|
                        0 <= i < vs@.len() ==> tensor_dims(#[trigger] vs@[i]) == seq![self.width()]
                    &&& exists|name: Seq<char>|
                        is_candidate(weights@, name) && #[trigger] embeds_each(
                            weights@,
                            name,
                            self.width(),
                            self.processor(),
                            batches@,
                            vs@,
                        )
                },
                Err(e) => is_weights_failure(weights@, self.width(), self.processor(), e)
                    || exists|name: Seq<char>, i: int|
                    is_candidate(weights@, name) && matrix_of(
                        weights@,
                        name,
                        self.width(),
                        self.processor(),
                    ) is Some && 0 <= i < batches@.len() && #[trigger] vector_of(
                        weights@,
                        name,
                        self.width(),
                        self.processor(),
                        batches@[i]@,
                    ) is None && is_sequence_failure(batches@[i]@, vocabulary_of(weights@, name), e),
            },
    {
        let matrix = self.load_matrix(weights)?;
        let ghost name = choose|name: Seq<char>|
            is_candidate(weights@, name) && #[trigger] matrix_of(
                weights@,
                name,
                self.width(),
                self.processor(),
            ) == Some(matrix.tensor()) && matrix.vocabulary() == vocabulary_of(weights@, name);
        let mut vectors: Vec<DenseTensor> = Vec::new();
        let mut i: usize = 0;
        while i < batches.len()
            invariant
                i <= batches@.len(),
                vectors@.len() == i,
                matrix.width() == self.width(),
                is_candidate(weights@, name),
                matrix_of(weights@, name, self.width(), self.processor()) == Some(matrix.tensor()),
                matrix.vocabulary() == vocabulary_of(weights@, name),
                forall|j: int|
                    0 <= j < i ==> tensor_dims(#[trigger] vectors@[j]) == seq![self.width()],
                forall|j: int|
                    0 <= j < i ==> vector_of(
                        weights@,
                        name,
                        self.width(),
                        self.processor(),
                        batches@[j]@,
                    ) == Some(#[trigger] vectors@[j]),
            decreases batches@.len() - i,
        {
            match self.embed_ids(&matrix, batches[i].as_slice()) {
                Ok(vector) => {
                    vectors.push(vector);
                },
                Err(e) => {
                    proof {
                        assert(vector_of(
                            weights@,
                            name,
                            self.width(),
                            self.processor(),
                            batches@[i as int]@,
                        ) is None);
                    }
                    return Err(e);
                },
            }
            i += 1;
        }
        proof {
            assert(embeds_each(weights@, name, self.width(), self.processor(), batches@, vectors@));
        }
        Ok(vectors)
    }

    /// Embeds texts: one vector per text, in the order of the texts, each with
    /// as many components as [`Embedder::embedding_dim`] says. Every text is
    /// encoded as it came; the vector at a position is the embedding of the
    /// token sequence of the text at that position. An empty list fails with
    /// `InvalidInput`.
    pub fn embed(&self, weights: &[u8], texts: &[String]) -> (vectors: Result<
        Vec<DenseTensor>,
        Error,
    >)
        ensures
            texts@.len() == 0 ==> vectors is Err && is_invalid_input(
                vectors->Err_0,
                empty_input_text(),
            ),
            vectors matches Ok(vs) ==> {
                &&& vs@.len() == texts@.len()
                &&& forall|i: int|
                    0 <= i < vs@.len() ==> tensor_dims(#[trigger] vs@[i]) == seq![self.width()]
                &&& is_embedding_run(
                    weights@,
                    self.width(),
                    self.processor(),
                    texts@.len(),
                    vs@,
                )
            },
            vectors matches Err(e) ==> texts@.len() > 0 ==> e is ModelLoadFailed
                || e is EmbeddingError,
            vectors matches Err(e) ==> texts@.len() > 0 && e is ModelLoadFailed
                ==> is_weights_failure(weights@, self.width(), self.processor(), e),
    {
        let batches = self.tokenize(texts)?;
        self.embed_batches(weights, &batches)
    }
}

} // verus!
