//! An in-process keyed mutual-exclusion manager: concurrent tasks request
//! exclusive access to resources identified by string keys, without blocking
//! tasks that work on unrelated keys.
//!
//! The shared registry maps each locked key to the unique token of its current
//! holder. Acquisition mints a fresh token and claims the key with a single
//! atomic insert-if-absent step; release removes the entry only while it still
//! carries the holder's own token, which makes release idempotent and safe
//! against reassignment races. Waiting acquirers poll with exponential
//! backoff, capped at a fixed maximum, until they win the key, a timeout
//! elapses, or a cancellation signal fires.

pub mod backoff;
pub mod multikeylock;
pub mod registry;
pub mod table;
