//! The ways in which handling an asset can fail.

use vstd::prelude::*;

verus! {

/// Why an asset could not be decoded, uploaded or found. A failure concerns
/// one asset only: the caller may skip it and go on with the rest.
#[derive(Clone, Copy, Debug, PartialEq, Eq, Hash, Structural)]
pub enum AssetError {
    /// The bytes are malformed, or their container format is not supported.
    Decode,
    /// The texture cannot be created: a row of its pixels is too long for the
    /// GPU's copy layout.
    Upload,
    /// No asset is stored under the requested key.
    Lookup,
    /// A lookup fell back to the default image, and that is absent too.
    MissingFallback,
}

} // verus!
