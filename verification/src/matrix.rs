//! The embedding matrix: one row per token of the vocabulary, one column per
//! component of an embedding vector. Rows are gathered by token id and pooled
//! into one vector by taking the mean of each column.

use crate::error::{is_embedding_failure, is_load_failure, labelled, Error};
use crate::foreign::DenseTensor;
use crate::store::{dims_of, tensor_dims};
use crate::text::has_prefix;
use candle_core::Device;
use vstd::prelude::*;
use vstd::string::*;

verus! {

/// The one-axis tensor that holds these integers on a device, or `None`
/// where it cannot be made.
pub uninterp spec fn token_tensor(ids: Seq<u32>, device: Device) -> Option<DenseTensor>;

/// The slices of a tensor along an axis that a one-axis tensor of indexes
/// names, in the order of the indexes, or `None` where they cannot be taken.
pub uninterp spec fn selected_rows(source: DenseTensor, indexes: DenseTensor, axis: usize) -> Option<
    DenseTensor,
>;

/// The arithmetic mean of a tensor along an axis, or `None` where it cannot
/// be taken.
pub uninterp spec fn axis_mean(source: DenseTensor, axis: usize) -> Option<DenseTensor>;

/// `Tensor::new` on a slice of integers: a one-axis tensor that holds them on
/// `device`. Assumed: whether it can be made, and the tensor made, depend on
/// the integers and the device alone; it has one axis, as long as the slice.
/// A failure comes back as the library's own words.
#[verifier::external_body]
fn tensor_from_ids(ids: &[u32], device: &Device) -> (built: Result<DenseTensor, String>)
    ensures
        match built {
            Ok(tensor) => token_tensor(ids@, *device) == Some(tensor) && tensor_dims(tensor)
                == seq![ids@.len() as usize],
            Err(_) => token_tensor(ids@, *device) is None,
        },
{
    candle_core::Tensor::new(ids, device).map(|inner| DenseTensor { inner }).map_err(
        |e| e.to_string(),
    )
}

/// `Tensor::index_select`: the slices of `source` along `axis` that `indexes`
/// names, in the order of `indexes`. Assumed: whether they can be taken, and
/// the tensor they give, depend on the two tensors and the axis alone; the
/// result has the shape of `source` but for `axis`, which is as long as
/// `indexes`. A failure comes back as the library's own words.
#[verifier::external_body]
fn tensor_index_select(source: &DenseTensor, indexes: &DenseTensor, axis: usize) -> (selected:
    Result<DenseTensor, String>)
    ensures
        match selected {
            Ok(tensor) => selected_rows(*source, *indexes, axis) == Some(tensor) && (axis
                < tensor_dims(*source).len() && tensor_dims(*indexes).len() == 1 ==> tensor_dims(
                tensor,
            ) == tensor_dims(*source).update(axis as int, tensor_dims(*indexes)[0])),
            Err(_) => selected_rows(*source, *indexes, axis) is None,
        },
{
    source.inner.index_select(&indexes.inner, axis).map(|inner| DenseTensor { inner }).map_err(
        |e| e.to_string(),
    )
}

/// `Tensor::mean`: the arithmetic mean of `source` along `axis`, which
/// disappears from the result. Assumed: whether it can be taken, and the
/// tensor it gives, depend on the tensor and the axis alone; the result has
/// the shape of `source` without `axis`. A failure comes back as the
/// library's own words.
#[verifier::external_body]
fn tensor_mean(source: &DenseTensor, axis: usize) -> (mean: Result<DenseTensor, String>)
    ensures
        match mean {
            Ok(tensor) => axis_mean(*source, axis) == Some(tensor) && (axis < tensor_dims(
                *source,
            ).len() ==> tensor_dims(tensor) == tensor_dims(*source).remove(axis as int)),
            Err(_) => axis_mean(*source, axis) is None,
        },
{
    source.inner.mean(axis).map(|inner| DenseTensor { inner }).map_err(|e| e.to_string())
}

/// What is reported of a tensor that is not a matrix of the configured width.
pub open spec fn bad_matrix_text() -> Seq<char> {
    "Embedding tensor does not have the configured shape"@
}

/// What is reported of a text that has no token.
pub open spec fn no_tokens_text() -> Seq<char> {
    "Text produced no tokens"@
}

/// What is reported of a token id that names no row.
pub open spec fn bad_token_text() -> Seq<char> {
    "Token id outside the vocabulary"@
}

/// What is reported of rows that are handed over for pooling without being a
/// matrix of the expected width with at least one row.
pub open spec fn bad_result_text() -> Seq<char> {
    "Embedding has an unexpected shape"@
}

/// What introduces the library's words when the ids cannot be put in a tensor.
pub open spec fn token_tensor_heading() -> Seq<char> {
    "Failed to create token tensor: "@
}

/// What introduces the library's words when rows cannot be gathered.
pub open spec fn index_heading() -> Seq<char> {
    "Failed to index embeddings: "@
}

/// What introduces the library's words when the mean cannot be taken.
pub open spec fn pooling_heading() -> Seq<char> {
    "Pooling failed: "@
}

/// The dimensions of a matrix with `width` columns.
pub open spec fn is_matrix_shape(dims: Seq<usize>, width: usize) -> bool {
    dims.len() == 2 && dims[1] == width
}

/// Every id names a row of a matrix with `vocabulary` rows.
pub open spec fn ids_in_vocabulary(ids: Seq<u32>, vocabulary: usize) -> bool {
    forall|t: int| 0 <= t < ids.len() ==> (#[trigger] ids[t]) < vocabulary
}

/// The ids can be embedded: there is at least one, and each names a row.
pub open spec fn ids_embeddable(ids: Seq<u32>, vocabulary: usize) -> bool {
    ids.len() > 0 && ids_in_vocabulary(ids, vocabulary)
}

/// Reads the number of rows off the dimensions of an embedding tensor.
/// Succeeds exactly when the tensor is a matrix with `width` columns.
pub fn matrix_rows(dims: &Vec<usize>, width: usize) -> (rows: Result<usize, Error>)
    ensures
        match rows {
            Ok(n) => is_matrix_shape(dims@, width) && n == dims@[0],
            Err(e) => !is_matrix_shape(dims@, width) && is_load_failure(e, bad_matrix_text()),
        },
{
    if dims.len() == 2 && dims[1] == width {
        Ok(dims[0])
    } else {
        Err(
            Error::ModelLoadFailed(
                String::from_str("Embedding tensor does not have the configured shape"),
            ),
        )
    }
}

/// Checks a token sequence against a vocabulary of `vocabulary` rows. An empty
/// sequence is refused, since a mean over no rows is undefined; so is an id
/// that names no row, which is never clamped.
pub fn check_token_ids(ids: &[u32], vocabulary: usize) -> (checked: Result<(), Error>)
    ensures
        match checked {
            Ok(_) => ids_embeddable(ids@, vocabulary),
            Err(e) => if ids@.len() == 0 {
                is_embedding_failure(e, no_tokens_text())
            } else {
                !ids_in_vocabulary(ids@, vocabulary) && is_embedding_failure(e, bad_token_text())
            },
        },
{
    if ids.len() == 0 {
        return Err(Error::EmbeddingError(String::from_str("Text produced no tokens")));
    }
    let mut t: usize = 0;
    while t < ids.len()
        invariant
            t <= ids@.len(),
            forall|u: int| 0 <= u < t ==> (#[trigger] ids@[u]) < vocabulary,
        decreases ids@.len() - t,
    {
        if ids[t] as u64 >= vocabulary as u64 {
            return Err(Error::EmbeddingError(String::from_str("Token id outside the vocabulary")));
        }
        t += 1;
    }
    Ok(())
}

fn embedding_failure(heading: &str, words: &str) -> (e: Error)
    ensures
        e is EmbeddingError,
        e.detail() == heading@ + words@,
        has_prefix(e.detail(), heading@),
{
    let detail = labelled(heading, words);
    assert(detail@.subrange(0, heading@.len() as int) == heading@);
    Error::EmbeddingError(detail)
}


/// The rows of `matrix` that `ids` name, gathered on `device`: the ids are put
/// in a tensor, which selects along the first axis. `None` where either step
/// cannot be done.
pub open spec fn gathered(matrix: DenseTensor, ids: Seq<u32>, device: Device) -> Option<DenseTensor> {
    match token_tensor(ids, device) {
        Some(indexes) => selected_rows(matrix, indexes, 0),
        None => None,
    }
}

/// Rows can be pooled into a vector of `width` components: they are a matrix
/// of that width with at least one row.
pub open spec fn poolable(rows: DenseTensor, width: usize) -> bool {
    is_matrix_shape(tensor_dims(rows), width) && tensor_dims(rows)[0] > 0
}

/// The vector that rows pool into: the mean along the first axis. `None` where
/// the rows cannot be pooled or the mean cannot be taken.
pub open spec fn pooled(rows: DenseTensor, width: usize) -> Option<DenseTensor> {
    if poolable(rows, width) {
        axis_mean(rows, 0)
    } else {
        None
    }
}

/// The embedding of a token sequence against a matrix tensor of `vocabulary`
/// rows and `width` columns: its rows gathered, then pooled. `None` where the
/// sequence is empty, an id names no row, or a step cannot be done.
pub open spec fn embedding_of(
    matrix: DenseTensor,
    vocabulary: usize,
    width: usize,
    ids: Seq<u32>,
    device: Device,
) -> Option<DenseTensor> {
    if ids_embeddable(ids, vocabulary) {
        match gathered(matrix, ids, device) {
            Some(rows) => pooled(rows, width),
            None => None,
        }
    } else {
        None
    }
}

/// A token-embedding matrix of `vocabulary` rows and `width` columns.
/// Read-only once made.
pub struct EmbeddingMatrix {
    weights: DenseTensor,
    vocabulary: usize,
    width: usize,
}

impl EmbeddingMatrix {
    /// The tensor has the shape the matrix says it has. Holds of every matrix
    /// that exists at run time.
    #[verifier::type_invariant]
    pub closed spec fn shape_is_known(self) -> bool {
        tensor_dims(self.weights) == seq![self.vocabulary, self.width]
    }

    /// The tensor that holds the numbers.
    pub closed spec fn tensor(&self) -> DenseTensor {
        self.weights
    }

    /// The number of rows: one per token of the vocabulary.
    pub closed spec fn vocabulary(&self) -> usize {
        self.vocabulary
    }

    /// The number of columns: one per component of an embedding vector.
    pub closed spec fn width(&self) -> usize {
        self.width
    }

    /// Takes a decoded tensor as the embedding matrix of a model whose vectors
    /// have `width` components. Fails with `ModelLoadFailed` exactly when the
    /// tensor is not a matrix with `width` columns.
    pub fn new(weights: DenseTensor, width: usize) -> (made: Result<EmbeddingMatrix, Error>)
        ensures
            match made {
                Ok(m) => is_matrix_shape(tensor_dims(weights), width) && m.tensor() == weights
                    && m.width() == width && m.vocabulary() == tensor_dims(weights)[0],
                Err(e) => !is_matrix_shape(tensor_dims(weights), width) && is_load_failure(
                    e,
                    bad_matrix_text(),
                ),
            },
    {
        let dims = dims_of(&weights);
        let vocabulary = matrix_rows(&dims, width)?;
        assert(dims@ =~= seq![vocabulary, width]);
        Ok(EmbeddingMatrix { weights, vocabulary, width })
    }

    /// The number of rows.
    pub fn rows(&self) -> (n: usize)
        ensures
            n == self.vocabulary(),
    {
        self.vocabulary
    }

    /// The number of columns.
    pub fn cols(&self) -> (n: usize)
        ensures
            n == self.width(),
    {
        self.width
    }

    /// Gathers one row per token id, in the order of `ids`, counting rows from
    /// zero. The ids are checked first, as [`check_token_ids`] says. On ids
    /// that pass, the result is what [`gathered`] names: the rows, one per id
    /// and as wide as the matrix, or an `EmbeddingError` where a step cannot
    /// be done.
    pub fn gather(&self, ids: &[u32], device: &Device) -> (rows: Result<DenseTensor, Error>)
        ensures
            match rows {
                Ok(taken) => ids_embeddable(ids@, self.vocabulary()) && gathered(
                    self.tensor(),
                    ids@,
                    *device,
                ) == Some(taken) && tensor_dims(taken) == seq![ids@.len() as usize, self.width()],
                Err(e) => if ids@.len() == 0 {
                    is_embedding_failure(e, no_tokens_text())
                } else if !ids_in_vocabulary(ids@, self.vocabulary()) {
                    is_embedding_failure(e, bad_token_text())
                } else {
                    gathered(self.tensor(), ids@, *device) is None && e is EmbeddingError && (
                    has_prefix(e.detail(), token_tensor_heading()) || has_prefix(
                        e.detail(),
                        index_heading(),
                    ))
                },
            },
    {
        proof {
            use_type_invariant(self);
        }
        check_token_ids(ids, self.vocabulary)?;
        let indexes = match tensor_from_ids(ids, device) {
            Ok(t) => t,
            Err(words) => {
                return Err(embedding_failure("Failed to create token tensor: ", words.as_str()));
            },
        };
        match tensor_index_select(&self.weights, &indexes, 0) {
            Ok(taken) => {
                assert(tensor_dims(taken) =~= seq![ids@.len() as usize, self.width()]);
                Ok(taken)
            },
            Err(words) => Err(embedding_failure("Failed to index embeddings: ", words.as_str())),
        }
    }
}

/// Pools gathered rows into one vector: the mean of each column. Rows that
/// are not a matrix of `width` columns with at least one row are refused, so
/// that no mean is taken over nothing. On rows that pass, the result is what
/// [`pooled`] names: the vector, of `width` components, or an
/// `EmbeddingError` where the mean cannot be taken.
pub fn pool_rows(rows: &DenseTensor, width: usize) -> (vector: Result<DenseTensor, Error>)
    ensures
        match vector {
            Ok(mean) => pooled(*rows, width) == Some(mean) && tensor_dims(mean) == seq![width],
            Err(e) => pooled(*rows, width) is None && if !poolable(*rows, width) {
                is_embedding_failure(e, bad_result_text())
            } else {
                e is EmbeddingError && has_prefix(e.detail(), pooling_heading())
            },
        },
{
    let dims = dims_of(rows);
    if !(dims.len() == 2 && dims[1] == width && dims[0] > 0) {
        return Err(Error::EmbeddingError(String::from_str("Embedding has an unexpected shape")));
    }
    match tensor_mean(rows, 0) {
        Ok(mean) => {
            assert(tensor_dims(mean) =~= seq![width]);
            Ok(mean)
        },
        Err(words) => Err(embedding_failure("Pooling failed: ", words.as_str())),
    }
}

} // verus!
