//! The keyed lock manager and its guards.
//!
//! A `MultiKeyLock` hands out exclusive, per-key guards. Every acquisition
//! call mints one fresh token and claims its key with the registry's atomic
//! insert-if-absent step; the call won exactly when the value that step left
//! under the key is the caller's own token. A `KeyLock` guard releases its
//! key on scope exit — or earlier, on explicit release — with the registry's
//! atomic remove-if-match step against its own token, which makes release
//! idempotent and harmless to any later holder of the same key.
//!
//! Only the non-blocking immediate mode lives here. The waiting modes race a
//! retry sleep against a cancellation signal on an asynchronous scheduler;
//! their per-round decisions are `MultiKeyLock::attempt` and
//! `crate::backoff::Backoff::next_round`.

use vstd::prelude::*;

use crate::backoff::{DEFAULT_RETRY_MS, DEFAULT_TIMEOUT_MS};
use crate::registry::Registry;

verus! {

/// Construction-time choices for a manager: a pre-existing registry handle
/// to share keys with other managers (or `None` for a fresh private one),
/// and the default timeout and retry base, each falling back to the
/// library's default when absent.
pub struct Config {
    pub registry: Option<Registry>,
    pub timeout_ms: Option<u64>,
    pub retry_ms: Option<u64>,
}

impl Default for Config {
    /// A fresh private registry, the default timeout and the default retry
    /// base.
    fn default() -> (r: Config)
        ensures
            r.registry is None,
            r.timeout_ms == Some(DEFAULT_TIMEOUT_MS),
            r.retry_ms == Some(DEFAULT_RETRY_MS),
    {
        Config {
            registry: None,
            timeout_ms: Some(DEFAULT_TIMEOUT_MS),
            retry_ms: Some(DEFAULT_RETRY_MS),
        }
    }
}

/// A keyed lock manager: a handle to a shared registry, with this manager's
/// default timeout and retry base in milliseconds.
pub struct MultiKeyLock {
    registry: Registry,
    pub timeout_ms: u64,
    pub retry_ms: u64,
}

impl MultiKeyLock {
    /// This manager's default timeout, in milliseconds.
    pub closed spec fn timeout(self) -> u64 {
        self.timeout_ms
    }

    /// This manager's retry base delay, in milliseconds.
    pub closed spec fn retry(self) -> u64 {
        self.retry_ms
    }
}

/// A held lock: proof of exclusive access to `key` on the registry the guard
/// was minted from, until the guard is released or dropped.
pub struct KeyLock {
    registry: Registry,
    pub key: String,
    token_id: u64,
}

impl MultiKeyLock {
    /// The registry this manager claims keys on.
    pub closed spec fn registry(self) -> Registry {
        self.registry
    }

    /// A manager over a fresh private registry, with the default timeout and
    /// retry base.
    pub fn new() -> (r: MultiKeyLock)
        ensures
            r.timeout() == DEFAULT_TIMEOUT_MS,
            r.retry() == DEFAULT_RETRY_MS,
    {
        Self::with_config(Config::default())
    }

    /// A manager from explicit choices: the supplied registry handle is kept
    /// — so managers built from clones of one handle contend on the same
    /// keys — and each absent setting falls back to the library's default.
    pub fn with_config(config: Config) -> (r: MultiKeyLock)
        ensures
            config.registry matches Some(h) ==> r.registry() == h,
            r.timeout() == (match config.timeout_ms {
                Some(t) => t,
                None => DEFAULT_TIMEOUT_MS,
            }),
            r.retry() == (match config.retry_ms {
                Some(t) => t,
                None => DEFAULT_RETRY_MS,
            }),
    {
        let registry: Registry = match config.registry {
            Some(h) => h,
            None => Registry::new(),
        };
        let timeout_ms: u64 = match config.timeout_ms {
            Some(t) => t,
            None => DEFAULT_TIMEOUT_MS,
        };
        let retry_ms: u64 = match config.retry_ms {
            Some(t) => t,
            None => DEFAULT_RETRY_MS,
        };
        MultiKeyLock { registry, timeout_ms, retry_ms }
    }

    /// Mints the one fresh token of an acquisition call from the registry's
    /// shared counter.
    pub fn mint_token(&self) -> u64 {
        self.registry.mint_token()
    }

    /// What one claim attempt yields, given the value `stored` that the
    /// registry's atomic insert-if-absent step left under `key`: the claim
    /// succeeded exactly when `stored` is the caller's own freshly minted
    /// `token_id`, and the guard then carries that key and token on this
    /// manager's registry. Any other stored value is another holder's token,
    /// so no guard exists.
    pub fn claim_outcome(&self, key: String, token_id: u64, stored: u64) -> (r: Option<KeyLock>)
        ensures
            (r is Some) <==> stored == token_id,
            r matches Some(g) ==> {
                &&& g.key_chars() == key@
                &&& g.token_id() == token_id
                &&& g.registry() == self.registry()
            },
    {
        if stored == token_id {
            Some(
                KeyLock {
                    registry: self.registry.clone_handle(),
                    key,
                    token_id,
                },
            )
        } else {
            None
        }
    }

    /// One acquisition round for an already minted token: a single atomic
    /// insert-if-absent against the shared registry. Whether it wins depends
    /// on the key's concurrent holders at that instant; whenever it does,
    /// the returned guard carries `key` and `token_id` on this manager's
    /// registry.
    pub fn attempt(&self, key: &str, token_id: u64) -> (r: Option<KeyLock>)
        ensures
            r matches Some(g) ==> {
                &&& g.key_chars() == key@
                &&& g.token_id() == token_id
                &&& g.registry() == self.registry()
            },
    {
        let owned: String = key.to_string();
        let stored: u64 = self.registry.load_or_insert(&owned, token_id);
        self.claim_outcome(owned, token_id, stored)
    }

    /// Immediate, non-blocking acquisition: mints a fresh token and makes
    /// exactly one insert-if-absent attempt. It never suspends and never
    /// sleeps; failure to acquire is the `None` outcome, not a fault.
    pub fn try_lock_now(&self, key: &str) -> (r: Option<KeyLock>)
        ensures
            r matches Some(g) ==> {
                &&& g.key_chars() == key@
                &&& g.registry() == self.registry()
            },
    {
        let token_id: u64 = self.registry.mint_token();
        self.attempt(key, token_id)
    }
}

impl KeyLock {
    /// The guard's key, as a sequence of characters.
    pub closed spec fn key_chars(self) -> Seq<char> {
        self.key@
    }

    /// The registry this guard releases into.
    pub closed spec fn registry(self) -> Registry {
        self.registry
    }

    /// The token minted for the acquisition call that won this guard.
    pub closed spec fn token_id(self) -> u64 {
        self.token_id
    }

    /// Explicit early release, equivalent to the release that scope exit
    /// performs: one atomic remove-if-match with the guard's own token. The
    /// step is idempotent — a second release, or one after the key was
    /// reassigned to a new holder, matches nothing and removes nothing (see
    /// `crate::table::lemma_idempotent_release` and
    /// `crate::table::lemma_stale_release_is_noop`). The guard itself is
    /// unchanged.
    pub fn release(&mut self)
        ensures
            *final(self) == *old(self),
    {
        self.registry.remove_if_match(&self.key, self.token_id);
    }
}

impl Drop for KeyLock {
    /// Automatic release on every exit path: the same atomic remove-if-match
    /// as explicit release, harmless when the key was already released or
    /// reassigned.
    fn drop(&mut self)
        opens_invariants none
        no_unwind
    {
        self.registry.remove_if_match(&self.key, self.token_id);
    }
}

} // verus!
