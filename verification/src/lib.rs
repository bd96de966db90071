//! An oracle-update operator library.
//!
//! The operator watches a source chain's block stream and periodically
//! commits the timestamp-to-block-root mapping for interval-aligned blocks
//! into an on-chain contract, avoiding redundant writes.  This crate holds
//! the decision core: finding the most recently recorded interval-aligned
//! block, scheduling the next block to commit, enforcing the reorg safety
//! margin, checking idempotency against the contract's records, and
//! interpreting the remote relay's responses.  All chain and relay I/O is
//! performed by the surrounding binary, which feeds plain values into the
//! functions here and carries their decisions out.

pub mod hex;
pub mod jsonval;
pub mod relay;
pub mod scanner;
pub mod scheduler;
pub mod types;
pub mod updater;
