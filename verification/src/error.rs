//! Errors reported by the library.

use vstd::prelude::*;

verus! {

/// Why an operation was refused.
#[derive(Debug, Clone, PartialEq)]
pub enum OpenMediaError {
    /// A request parameter has a value the operation cannot use.
    InvalidParameter { param: String, reason: String },
    /// The rendering or inference backend is not available.
    BackendUnavailable(String),
    /// An image could not be encoded in the given format.
    ImageEncodeError { format: String, reason: String },
    /// Bytes could not be decoded as an image.
    ImageDecodeError(String),
}

} // verus!
