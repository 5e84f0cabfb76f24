//! Types of other crates that values of this crate carry. Each is opaque to
//! the verifier: nothing is known of a value but what a contract says.

use vstd::prelude::*;

verus! {

/// A parsed JSON document, as `serde_json` holds it.
#[verifier::external_type_specification]
#[verifier::external_body]
pub struct ExJsonValue(serde_json::Value);

/// A dense array of numbers on some device, as `candle_core` holds it. The
/// verifier does not look inside: the numbers are read through `inner`, by
/// code that may work with floating point. Two tensors are the same value
/// where they hold the same numbers in the same shape on the same device.
#[verifier::external_body]
#[derive(Debug)]
pub struct DenseTensor {
    pub inner: candle_core::Tensor,
}

/// The processor on which tensors live.
#[verifier::external_type_specification]
#[verifier::external_body]
pub struct ExDevice(candle_core::Device);

/// A weight container whose header has been decoded and whose data still lies
/// in the buffer it was opened on.
#[verifier::external_type_specification]
#[verifier::external_body]
pub struct ExSliceSafetensors<'a>(candle_core::safetensors::SliceSafetensors<'a>);

/// A tokenizer with its vocabulary and rules, as `tokenizers` holds it.
#[verifier::external_type_specification]
#[verifier::external_body]
pub struct ExTokenizer(tokenizers::Tokenizer);

} // verus!
