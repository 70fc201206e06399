//! The closed error taxonomy shared by every call of the dispatch core.

use vstd::prelude::*;

verus! {

/// Why a configuration call failed.
///
/// `validate` never raises: it only returns a boolean.  `set` and `init`
/// report one of these immediately; the batch evaluators propagate an error
/// from the internal `init` unchanged and never return partial results.
#[derive(Clone, Copy, Debug, PartialEq, Eq, Structural)]
pub enum Error {
    /// A parameter name was unrecognised, a value failed to parse or fit the
    /// field's domain, or `init` was asked to proceed while `validate` would
    /// have rejected the current parameter set.
    InvalidParameter,
    /// The parameters cannot be seeded from the particular candle handed to
    /// `init`.
    IncompatibleSeed,
    /// An indicator-specific domain error, opaque to the core and carried
    /// through the same channel unchanged.
    Domain(u64),
}

} // verus!
