use vstd::prelude::*;

verus! {

/// The error taxonomy of the guarded transfer workflow.  Every fallible step
/// surfaces exactly one of these; nothing is retried internally.
#[derive(Clone, Copy, Debug, PartialEq, Eq, Structural)]
pub enum TransferError {
    /// Missing or malformed credential, recipient address, or amount; raised
    /// before any network interaction.
    ConfigError,
    /// A read-only chain query failed (endpoint unreachable or malformed).
    ConnectionError,
    /// The transfer amount alone exceeds the sender's balance.
    InsufficientFunds,
    /// The amount plus the worst-case gas cost exceeds the sender's balance.
    InsufficientFundsForGas,
    /// The node did not report the fee data the workflow needs, or reported
    /// values outside the representable fee range.
    FeeDataUnavailable,
    /// The gas estimation call failed or its result was unusable.
    EstimationFailed,
    /// The broadcast was rejected; nothing reached the network.
    SubmissionFailed,
    /// Waiting for the receipt errored after a successful broadcast; the
    /// transaction itself may still be included.
    ConfirmationWaitFailed,
}

impl TransferError {
    /// A short stable label for reporting; the crate defines no `Display`.
    pub fn label(&self) -> (r: &'static str) {
        match self {
            TransferError::ConfigError => "config error",
            TransferError::ConnectionError => "connection error",
            TransferError::InsufficientFunds => "insufficient funds",
            TransferError::InsufficientFundsForGas => "insufficient funds for gas",
            TransferError::FeeDataUnavailable => "fee data unavailable",
            TransferError::EstimationFailed => "estimation failed",
            TransferError::SubmissionFailed => "submission failed",
            TransferError::ConfirmationWaitFailed => "confirmation wait failed",
        }
    }
}

} // verus!
