//! Checkpoint management for a Bitcoin custody bridge.
//!
//! Custodied funds move from the multisig output of one signatory set to that
//! of the next through a rolling sequence of checkpoints. Each checkpoint is
//! built, signed by a weighted quorum of its signatory set, and completed.
//! The queue addresses checkpoints by a global index that never decreases.

pub mod checkpoint;
pub mod error;
pub mod invariants;
pub mod keys;
pub mod signatory;
pub mod threshold_sig;
