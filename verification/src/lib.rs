//! Guarded native-currency transfer workflow for an EIP-1559 chain.
//!
//! The crate models the decision logic of a single-shot transfer: validating
//! the configured intent, computing a safe fee envelope and gas budget from
//! live network data, checking affordability before any mutating call, and
//! tracking the submitted transaction to a confirmed, unknown, or failed
//! outcome.  All network transport, ABI handling, and signing are external
//! collaborators: a driver performs each requested query and feeds the reply
//! back to the workflow as a plain event.

pub mod address;
pub mod amount;
pub mod errors;
pub mod fees;
pub mod intent;
pub mod units;
pub mod workflow;
