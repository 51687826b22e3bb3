//! Failures of accessory operations.
use vstd::prelude::*;

use crate::contracts::JsonErrors;

verus! {

/// Why an operation on an accessory failed.
#[derive(Debug, Clone)]
pub enum EccError {
    /// The network call could not complete.
    Transport(String),
    /// The accessory answered with a failure status and this error envelope.
    DeviceRejected(JsonErrors),
    /// The response body matched neither the expected record nor the error envelope.
    Decode,
    /// The cipher was handed a key, an initialization vector or data of the wrong length.
    Encoding,
    /// The accessory reported no lights.
    NoLights,
}

} // verus!
