//! The shared concurrent registry: a mapping from key to holder token,
//! shared by reference among a manager and all guards minted from it, plus
//! the counter that mints unique holder tokens.
//!
//! The map is a `dashmap::DashMap`, reached only through the two atomic
//! steps the locking protocol allows: insert-if-absent and remove-if-match.
//! Their abstract effect on the key-to-token table is stated and proved in
//! `crate::table`; the registry is shared and mutated concurrently through
//! `&self`, so the trusted contracts here claim nothing about its contents —
//! what any one outcome means for a caller is stated by the verified
//! functions that take these results as arguments.

use std::sync::Arc;
use core::sync::atomic::{AtomicU64, Ordering};
use vstd::prelude::*;

verus! {

/// Declares dashmap::DashMap, the concurrent sharded map the registry is
/// built on, so that it can stand in a field. Its values are opaque here:
/// every access goes through the trusted operations below.
#[verifier::external_type_specification]
#[verifier::external_body]
#[verifier::reject_recursive_types(K)]
#[verifier::reject_recursive_types(V)]
#[verifier::reject_recursive_types(S)]
pub struct ExDashMap<K, V, S>(dashmap::DashMap<K, V, S>);

/// The state behind one shared registry handle: the concurrent key-to-token
/// map and the counter from which holder tokens are minted.
struct RegistryState {
    map: dashmap::DashMap<String, u64>,
    next_token: AtomicU64,
}

/// A shared handle to one registry. Clones of a handle refer to the same
/// map and the same token counter; the registry lives as long as its
/// longest-lived holder, manager or guard.
pub struct Registry {
    state: Arc<RegistryState>,
}

/// Whether a stored holder token is the caller's own. This is the test a
/// release hands to the registry's remove-if-match step.
pub(crate) fn tokens_match(stored: u64, token_id: u64) -> (r: bool)
    ensures
        r == (stored == token_id),
{
    stored == token_id
}

/// Relies on dashmap::DashMap::new: creates an empty map.
#[verifier::external_body]
fn empty_map() -> dashmap::DashMap<String, u64> {
    dashmap::DashMap::new()
}

impl Registry {
    /// A fresh registry with an empty map: no key is locked, and the token
    /// counter starts at zero.
    pub fn new() -> Registry {
        Registry {
            state: Arc::new(RegistryState { map: empty_map(), next_token: AtomicU64::new(0) }),
        }
    }

    /// Relies on std::sync::Arc::clone: the returned handle refers to the
    /// same allocation, so it is the same registry.
    #[verifier::external_body]
    pub fn clone_handle(&self) -> (r: Registry)
        ensures
            r == *self,
    {
        Registry { state: Arc::clone(&self.state) }
    }

    /// Mints a token for one acquisition attempt from the shared counter.
    /// Distinct calls on one registry return distinct tokens (the counter
    /// only steps forward), but which number comes back depends on every
    /// concurrent caller of this registry, so nothing is claimed of it.
    pub fn mint_token(&self) -> u64 {
        self.state.next_token.fetch_add(1, Ordering::SeqCst)
    }

    /// Relies on dashmap::DashMap::entry and dashmap::mapref::entry::Entry::or_insert:
    /// as one atomic step — the shard's write lock is held from lookup
    /// through insertion — `token_id` is inserted under `key` only if no
    /// entry exists, and the value stored under `key` at that step is
    /// returned. The caller's attempt won exactly when that value is its own
    /// `token_id`; which value comes back depends on the concurrent holders
    /// of the key, so nothing is claimed of it here.
    #[verifier::external_body]
    pub(crate) fn load_or_insert(&self, key: &String, token_id: u64) -> u64 {
        *self.state.map.entry(key.clone()).or_insert(token_id)
    }

    /// Relies on dashmap::DashMap::remove_if: as one atomic step, the entry
    /// under `key` is removed only if its value passes the supplied test —
    /// here, only if the key's current holder token is `token_id` itself.
    /// The step mutates shared state reached through `&self` and returns
    /// nothing, so there is nothing to claim of it; it looks up and compares
    /// plain values and does not unwind.
    #[verifier::external_body]
    pub(crate) fn remove_if_match(&self, key: &String, token_id: u64)
        opens_invariants none
        no_unwind
    {
        self.state.map.remove_if(key, |_stored_key, stored| tokens_match(*stored, token_id));
    }
}

} // verus!
