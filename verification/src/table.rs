//! The registry protocol, stated abstractly.
//!
//! A registry is a finite map from keys to holder tokens: an entry exists for
//! a key exactly while that key is locked, and carries the token of the one
//! current holder. Its two operations are single atomic steps:
//! insert-if-absent (an acquisition attempt) and remove-if-match (a release).
//! The spec functions below give each step's effect on the abstract table,
//! and the lemmas prove the laws the protocol is built for: mutual exclusion,
//! release correctness, and idempotent release.

use vstd::prelude::*;

verus! {

/// Whether an insert-if-absent step for `key` wins on table `t`: it wins
/// exactly when no holder is currently registered for `key`.
pub open spec fn insert_wins(t: Map<Seq<char>, u64>, key: Seq<char>) -> bool {
    !t.dom().contains(key)
}

/// The table after an insert-if-absent step for `key` with `token`:
/// unchanged if `key` is already held, else `key` now maps to `token`.
pub open spec fn after_insert(t: Map<Seq<char>, u64>, key: Seq<char>, token: u64) -> Map<
    Seq<char>,
    u64,
> {
    if t.dom().contains(key) {
        t
    } else {
        t.insert(key, token)
    }
}

/// The table after a remove-if-match step for `key` with `token`: the entry
/// for `key` is removed only if it currently carries exactly `token`.
pub open spec fn after_remove(t: Map<Seq<char>, u64>, key: Seq<char>, token: u64) -> Map<
    Seq<char>,
    u64,
> {
    if t.dom().contains(key) && t[key] == token {
        t.remove(key)
    } else {
        t
    }
}

/// The current holder token of `key`, if any.
pub open spec fn holder(t: Map<Seq<char>, u64>, key: Seq<char>) -> Option<u64> {
    if t.dom().contains(key) {
        Some(t[key])
    } else {
        None
    }
}

/// Mutual exclusion: once an insert-if-absent step for `key` has won with
/// `token1`, that token is the key's one holder, and no later insert-if-absent
/// step for the same key can win — nor change the holder — until the key is
/// released. At most one live acquisition per key exists at any instant.
pub proof fn lemma_mutual_exclusion(
    t: Map<Seq<char>, u64>,
    key: Seq<char>,
    token1: u64,
    token2: u64,
)
    requires
        insert_wins(t, key),
    ensures
        holder(after_insert(t, key, token1), key) == Some(token1),
        !insert_wins(after_insert(t, key, token1), key),
        after_insert(after_insert(t, key, token1), key, token2) == after_insert(t, key, token1),
{
}

/// Release correctness: releasing a key with its holder's own token leaves the
/// key unheld, so the next acquisition attempt — with any freshly minted
/// token — wins immediately and becomes the new holder.
pub proof fn lemma_release_correctness(
    t: Map<Seq<char>, u64>,
    key: Seq<char>,
    token: u64,
    fresh: u64,
)
    requires
        holder(t, key) == Some(token),
    ensures
        insert_wins(after_remove(t, key, token), key),
        holder(after_insert(after_remove(t, key, token), key, fresh), key) == Some(fresh),
{
}

/// Idempotent release, same token: a second remove-if-match step with the same
/// token changes nothing, so releasing a guard twice is a no-op.
pub proof fn lemma_idempotent_release(t: Map<Seq<char>, u64>, key: Seq<char>, token: u64)
    ensures
        after_remove(after_remove(t, key, token), key, token) == after_remove(t, key, token),
{
    assert(after_remove(after_remove(t, key, token), key, token) =~= after_remove(
        t,
        key,
        token,
    ));
}

/// Idempotent release, reassigned key: a remove-if-match step with a stale
/// token — the key is now held by a different holder — changes nothing, so a
/// late release never removes the new holder's entry.
pub proof fn lemma_stale_release_is_noop(
    t: Map<Seq<char>, u64>,
    key: Seq<char>,
    stale: u64,
    current: u64,
)
    requires
        holder(t, key) == Some(current),
        current != stale,
    ensures
        after_remove(t, key, stale) == t,
{
}

/// A release never touches any other key's entry, whether or not it removes
/// its own: tasks contending on unrelated keys are independent.
pub proof fn lemma_release_leaves_other_keys(
    t: Map<Seq<char>, u64>,
    key: Seq<char>,
    other: Seq<char>,
    token: u64,
)
    requires
        key != other,
    ensures
        holder(after_remove(t, key, token), other) == holder(t, other),
{
}

} // verus!
