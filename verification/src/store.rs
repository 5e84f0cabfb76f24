//! The tensor store: a weight container opened on a buffer that the caller
//! keeps, listing its tensors by name and decoding one on demand.

use crate::error::{labelled, Error};
use crate::foreign::DenseTensor;
use crate::text::has_prefix;
use candle_core::safetensors::SliceSafetensors;
use candle_core::Device;
use vstd::prelude::*;
use vstd::slice::*;

verus! {

/// The length of the data region that a header declares: where its last
/// tensor ends. `None` where the bytes are not a header whose table is sound.
pub uninterp spec fn header_data_end(header: Seq<u8>) -> Option<usize>;

/// The container that a buffer holds, or `None` where the buffer is not a
/// well-formed container.
pub uninterp spec fn buffer_container(bytes: Seq<u8>) -> Option<SliceSafetensors<'static>>;

/// The tensors that an opened container holds, each name with the shape its
/// header declares.
pub uninterp spec fn container_shapes(container: SliceSafetensors<'_>) -> Map<Seq<char>, Seq<usize>>;

/// The tensor that decoding a name of a container onto a device gives, or
/// `None` where it cannot be decoded.
pub uninterp spec fn decoded_tensor(
    container: SliceSafetensors<'_>,
    name: Seq<char>,
    device: Device,
) -> Option<DenseTensor>;

/// The size of a tensor along each of its axes.
pub uninterp spec fn tensor_dims(tensor: DenseTensor) -> Seq<usize>;

/// What the header of a container says of one tensor.
#[derive(Debug)]
pub struct TensorDescriptor {
    /// The name the tensor is filed under.
    pub name: String,
    /// The kind of number the tensor holds, as the container spells it.
    pub dtype: String,
    /// The size of the tensor along each of its axes.
    pub shape: Vec<usize>,
}

/// The texts of a list of strings.
pub open spec fn texts_of(names: Seq<String>) -> Seq<Seq<char>> {
    names.map_values(|s: String| s@)
}

/// The names of a list of descriptors.
pub open spec fn names_of(listing: Seq<TensorDescriptor>) -> Seq<Seq<char>> {
    listing.map_values(|d: TensorDescriptor| d.name@)
}

/// A listing describes `shapes`: it names each tensor once, and gives each the
/// shape that `shapes` holds for it.
pub open spec fn describes(listing: Seq<TensorDescriptor>, shapes: Map<Seq<char>, Seq<usize>>) -> bool {
    &&& names_of(listing).no_duplicates()
    &&& names_of(listing).to_set() == shapes.dom()
    &&& forall|i: int|
        0 <= i < listing.len() ==> shapes[(#[trigger] listing[i]).name@] == listing[i].shape@
}

/// The number that the first eight bytes of a buffer write, lowest byte
/// first: the length of the header that follows them.
pub open spec fn length_field(bytes: Seq<u8>) -> nat {
    (bytes[0] + 256 * (bytes[1] + 256 * (bytes[2] + 256 * (bytes[3] + 256 * (bytes[4] + 256 * (
        bytes[5] + 256 * (bytes[6] + 256 * bytes[7]))))))) as nat
}

/// The header of a buffer: what follows the length field, as long as the
/// field says.
pub open spec fn header_of(bytes: Seq<u8>) -> Seq<u8> {
    bytes.subrange(8, 8 + length_field(bytes) as int)
}

/// A buffer is as long as it declares: it holds the length field, a header of
/// that length whose table is sound, and exactly as much data as the table
/// calls for.
pub open spec fn keeps_declared_length(bytes: Seq<u8>) -> bool {
    &&& bytes.len() >= 8
    &&& length_field(bytes) <= bytes.len() - 8
    &&& header_data_end(header_of(bytes)) matches Some(end)
    &&& end == bytes.len() - 8 - length_field(bytes)
}

/// The tensors of the container that a buffer holds, each name with its
/// declared shape, or `None` where the buffer is not a well-formed container.
pub open spec fn buffer_shapes(bytes: Seq<u8>) -> Option<Map<Seq<char>, Seq<usize>>> {
    if keeps_declared_length(bytes) {
        match buffer_container(bytes) {
            Some(container) => Some(container_shapes(container)),
            None => None,
        }
    } else {
        None
    }
}

/// `serde_json::from_slice` at `safetensors::tensor::Metadata`, then
/// `Metadata::data_len`: decodes a header and tells where the data of its last
/// tensor ends. Assumed: whether the bytes are accepted, and the end they
/// give, depend on the bytes alone. A rejection comes back as the decoder's
/// own words, of which nothing is assumed.
#[verifier::external_body]
fn declared_data_end(header: &[u8]) -> (end: Result<usize, String>)
    ensures
        match end {
            Ok(n) => header_data_end(header@) == Some(n),
            Err(_) => header_data_end(header@) is None,
        },
{
    serde_json::from_slice::<safetensors::tensor::Metadata>(header).map(|m| m.data_len()).map_err(
        |e| e.to_string(),
    )
}

/// `SliceSafetensors::new`: decodes the header of a container held in
/// `bytes`. The buffer must be as long as it declares; on any other the
/// decoder's sum of the declared lengths may overflow. Assumed: whether a
/// buffer is accepted, and the container it gives, depend on the bytes alone.
/// A rejection comes back as the decoder's own words, of which nothing is
/// assumed.
#[verifier::external_body]
fn open_container<'a>(bytes: &'a [u8]) -> (opened: Result<SliceSafetensors<'a>, String>)
    requires
        keeps_declared_length(bytes@),
    ensures
        match opened {
            Ok(container) => buffer_container(bytes@) == Some(container),
            Err(_) => buffer_container(bytes@) is None,
        },
{
    SliceSafetensors::new(bytes).map_err(|e| e.to_string())
}

/// `SliceSafetensors::tensors`, keeping of each tensor its name, the name of
/// its number kind, and its shape. Assumed: each tensor of the container comes
/// once, with the shape the header declares; their order is not fixed.
#[verifier::external_body]
fn container_listing(container: &SliceSafetensors<'_>) -> (listing: Vec<TensorDescriptor>)
    ensures
        names_of(listing@).no_duplicates(),
        names_of(listing@).to_set() == container_shapes(*container).dom(),
        forall|i: int|
            0 <= i < listing@.len() ==> container_shapes(*container)[(#[trigger] listing@[i]).name@]
                == listing@[i].shape@,
{
    container.tensors().into_iter().map(
        |(name, view)| TensorDescriptor {
            name,
            dtype: format!("{:?}", view.dtype()),
            shape: view.shape().to_vec(),
        },
    ).collect()
}

/// `SliceSafetensors::load`: decodes the tensor filed under `name` onto
/// `device`. Assumed: whether it can be decoded, and the tensor it gives,
/// depend on the container, the name and the device alone; a name that the
/// container does not hold is rejected; a decoded tensor has the shape its
/// header declares.
#[verifier::external_body]
fn container_load(container: &SliceSafetensors<'_>, name: &str, device: &Device) -> (loaded: Result<
    DenseTensor,
    String,
>)
    ensures
        match loaded {
            Ok(tensor) => decoded_tensor(*container, name@, *device) == Some(tensor)
                && container_shapes(*container).dom().contains(name@) && tensor_dims(tensor)
                == container_shapes(*container)[name@],
            Err(_) => decoded_tensor(*container, name@, *device) is None,
        },
        !container_shapes(*container).dom().contains(name@) ==> loaded is Err,
{
    container.load(name, device).map(|inner| DenseTensor { inner }).map_err(|e| e.to_string())
}

/// `Tensor::dims`: the size of the tensor along each axis.
#[verifier::external_body]
pub(crate) fn dims_of(tensor: &DenseTensor) -> (dims: Vec<usize>)
    ensures
        dims@ == tensor_dims(*tensor),
{
    tensor.inner.dims().to_vec()
}

/// What introduces the reason when a container cannot be opened.
pub open spec fn open_failure_heading() -> Seq<char> {
    "Failed to load safetensors: "@
}

/// What introduces the decoder's words when a tensor cannot be decoded.
pub open spec fn load_failure_heading() -> Seq<char> {
    "Failed to load embedding tensor: "@
}

fn open_failure(words: &str) -> (e: Error)
    ensures
        e is ModelLoadFailed,
        has_prefix(e.detail(), open_failure_heading()),
{
    let detail = labelled("Failed to load safetensors: ", words);
    assert(detail@.subrange(0, open_failure_heading().len() as int) == open_failure_heading());
    Error::ModelLoadFailed(detail)
}

/// Reads the length field of a buffer: its first eight bytes, lowest first.
fn read_length_field(bytes: &[u8]) -> (length: u64)
    requires
        bytes@.len() >= 8,
    ensures
        length == length_field(bytes@),
{
    let mut length: u64 = 0;
    let mut i: usize = 8;
    while i > 0
        invariant
            i <= 8,
            bytes@.len() >= 8,
            i == 8 ==> length == 0,
            i == 7 ==> length == bytes@[7],
            i == 6 ==> length == bytes@[6] + 256 * bytes@[7],
            i == 5 ==> length == bytes@[5] + 256 * (bytes@[6] + 256 * bytes@[7]),
            i == 4 ==> length == bytes@[4] + 256 * (bytes@[5] + 256 * (bytes@[6] + 256 * bytes@[7])),
            i == 3 ==> length == bytes@[3] + 256 * (bytes@[4] + 256 * (bytes@[5] + 256 * (bytes@[6]
                + 256 * bytes@[7]))),
            i == 2 ==> length == bytes@[2] + 256 * (bytes@[3] + 256 * (bytes@[4] + 256 * (bytes@[5]
                + 256 * (bytes@[6] + 256 * bytes@[7])))),
            i == 1 ==> length == bytes@[1] + 256 * (bytes@[2] + 256 * (bytes@[3] + 256 * (bytes@[4]
                + 256 * (bytes@[5] + 256 * (bytes@[6] + 256 * bytes@[7]))))),
            i == 0 ==> length == length_field(bytes@),
        decreases i,
    {
        i -= 1;
        length = length * 256 + bytes[i] as u64;
    }
    length
}

/// Whether a buffer is as long as it declares; see [`keeps_declared_length`].
/// Where it is not, the reason is handed back.
pub fn check_declared_length(bytes: &[u8]) -> (checked: Result<(), String>)
    ensures
        checked is Ok <==> keeps_declared_length(bytes@),
{
    if bytes.len() < 8 {
        return Err(String::from_str("buffer ends before the header"));
    }
    let length = read_length_field(bytes);
    let room = bytes.len() - 8;
    if length > room as u64 {
        return Err(String::from_str("header runs past the end of the buffer"));
    }
    let header = slice_subrange(bytes, 8, 8 + length as usize);
    match declared_data_end(header) {
        Ok(end) => {
            if end == room - length as usize {
                Ok(())
            } else {
                Err(String::from_str("data is not as long as the header declares"))
            }
        },
        Err(words) => Err(words),
    }
}

/// A weight container opened read-only on a buffer. The buffer stays with the
/// caller and outlives the store; tensors decoded from it are copies.
pub struct TensorStore<'a> {
    container: SliceSafetensors<'a>,
}

impl<'a> TensorStore<'a> {
    /// The opened container.
    pub closed spec fn container(&self) -> SliceSafetensors<'a> {
        self.container
    }

    /// The tensors in the store, each name with its declared shape.
    pub open spec fn shapes(&self) -> Map<Seq<char>, Seq<usize>> {
        container_shapes(self.container())
    }

    /// The names of the tensors in the store.
    pub open spec fn names(&self) -> Set<Seq<char>> {
        self.shapes().dom()
    }

    /// Opens the container that `bytes` holds. Succeeds exactly when the
    /// buffer is as long as it declares and holds a well-formed container;
    /// any other buffer fails with `ModelLoadFailed`.
    pub fn open(bytes: &'a [u8]) -> (opened: Result<TensorStore<'a>, Error>)
        ensures
            match opened {
                Ok(store) => keeps_declared_length(bytes@) && buffer_container(bytes@) == Some(
                    store.container(),
                ) && buffer_shapes(bytes@) == Some(store.shapes()),
                Err(e) => buffer_shapes(bytes@) is None && e is ModelLoadFailed && has_prefix(
                    e.detail(),
                    open_failure_heading(),
                ),
            },
    {
        match check_declared_length(bytes) {
            Ok(_) => {},
            Err(why) => {
                return Err(open_failure(why.as_str()));
            },
        }
        match open_container(bytes) {
            Ok(container) => Ok(TensorStore { container }),
            Err(words) => Err(open_failure(words.as_str())),
        }
    }

    /// Lists the tensors with what the header says of each, without decoding
    /// any. Each tensor comes once; the order is not fixed.
    pub fn descriptors(&self) -> (listing: Vec<TensorDescriptor>)
        ensures
            describes(listing@, self.shapes()),
    {
        container_listing(&self.container)
    }

    /// Lists the tensors by name, without decoding any. Each name comes once;
    /// the order is not fixed.
    pub fn tensor_names(&self) -> (names: Vec<String>)
        ensures
            texts_of(names@).no_duplicates(),
            texts_of(names@).to_set() == self.names(),
    {
        let listing = self.descriptors();
        let names = descriptor_names(&listing);
        assert(texts_of(names@) =~= names_of(listing@));
        names
    }

    /// Decodes the tensor filed under `name` onto `device`. Succeeds exactly
    /// when the tensor can be decoded, and hands back that tensor, which has
    /// its declared shape; fails with `ModelLoadFailed` otherwise, as for
    /// every name that the store does not hold.
    pub fn load(&self, name: &str, device: &Device) -> (loaded: Result<DenseTensor, Error>)
        ensures
            !self.names().contains(name@) ==> loaded is Err,
            match loaded {
                Ok(tensor) => decoded_tensor(self.container(), name@, *device) == Some(tensor)
                    && self.names().contains(name@) && tensor_dims(tensor) == self.shapes()[name@],
                Err(e) => decoded_tensor(self.container(), name@, *device) is None
                    && e is ModelLoadFailed && has_prefix(e.detail(), load_failure_heading()),
            },
    {
        match container_load(&self.container, name, device) {
            Ok(tensor) => Ok(tensor),
            Err(words) => {
                let detail = labelled("Failed to load embedding tensor: ", words.as_str());
                assert(detail@.subrange(0, load_failure_heading().len() as int)
                    == load_failure_heading());
                Err(Error::ModelLoadFailed(detail))
            },
        }
    }
}

/// The names of a listing, in its order.
pub fn descriptor_names(listing: &Vec<TensorDescriptor>) -> (names: Vec<String>)
    ensures
        names@.len() == listing@.len(),
        forall|i: int| 0 <= i < names@.len() ==> (#[trigger] names@[i])@ == listing@[i].name@,
{
    let mut names: Vec<String> = Vec::new();
    let mut i: usize = 0;
    while i < listing.len()
        invariant
            i <= listing@.len(),
            names@.len() == i,
            forall|j: int| 0 <= j < i ==> (#[trigger] names@[j])@ == listing@[j].name@,
        decreases listing@.len() - i,
    {
        names.push(listing[i].name.clone());
        i += 1;
    }
    names
}

} // verus!
