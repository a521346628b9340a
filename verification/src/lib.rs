//! Client-side coordination for a multi-chain token platform.
//!
//! The crate covers the logic of the platform client: resolving account
//! text into canonical addresses, validating point-in-time balance queries
//! against the ledger's replies, the vesting-schedule state machine that
//! governs how locked balances unlock over chain time, building
//! proof-carrying envelopes with per-pair sequence numbers, and the relay
//! state machine that tracks delivery of an envelope to a remote chain
//! partition. The ledger, the transport and the proof circuits are outside
//! collaborators: callers perform that I/O and hand the replies to the
//! functions here, which decide what they mean.

pub mod address;
pub mod envelope;
pub mod errors;
pub mod oracle;
pub mod relay;
pub mod vesting;
