use vstd::prelude::*;

pub mod abi;
pub mod amm;
pub mod bridge;
pub mod coordinator;
pub mod amount;
pub mod swap;
pub mod tag;

verus! {

/// The error taxonomy of the conversion core.
#[derive(Clone, Copy, PartialEq, Eq, Structural, Debug)]
pub enum BridgeError {
    /// A reserve or block read failed, or returned unusable data; safe to
    /// retry with a fresh read.
    ChainRead,
    /// The venue or bridge contract rejected the transaction.
    SubmissionRejected,
    /// The deadline elapsed with no matching confirmation event.
    ConfirmationTimeout,
    /// An event matched the filter but its payload could not be decoded.
    MalformedEventData,
    /// An intermediate value left the 256-bit amount range; surfaced rather
    /// than wrapped silently.
    AmountOverflow,
}

} // verus!
