use vstd::prelude::*;

verus! {

/// Errors returned by the registry.
///
/// Every failure is reported to the immediate caller as a typed result;
/// nothing is logged or swallowed, and a failed operation writes no state.
#[derive(Clone, Copy, Debug, PartialEq, Eq, Structural)]
pub enum IPProtectorError {
    /// A field exceeds its bounded length.  Detected before any store
    /// interaction, so no partial state is ever written.
    InvalidInput,
    /// The derived slot is already occupied: the same discriminating fields
    /// were registered before.  First registration wins, irrevocably.
    AlreadyRegistered,
    /// Reserved for a future check that the caller identity matches an
    /// expected signer; no operation raises it today.
    Unauthorized,
}

} // verus!
