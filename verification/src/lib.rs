//! A rotating-savings group ("chama"): a fixed set of members each contribute
//! a uniform amount per fixed-length epoch, and in each epoch exactly one
//! member, chosen round-robin, receives the pooled escrow balance above a
//! reserve floor.
//!
//! The library is the group state machine alone. Identities are opaque tokens
//! compared only for equality, modeled as `u64`. Time is an `i64` timestamp
//! observed by the caller and passed in. The escrow is modeled as a balance
//! owned by the group; the caller carries out the matching ledger transfers.

pub mod chama;
pub mod laws;
