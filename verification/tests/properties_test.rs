use multikeylock::backoff::{Backoff, WaitEvent, DEFAULT_RETRY_MS, DEFAULT_TIMEOUT_MS, MAX_BACKOFF_MS};
use multikeylock::multikeylock::{Config, KeyLock, MultiKeyLock};
use multikeylock::registry::Registry;
use std::time::Duration;
use std::time::Instant;
use tokio::time::sleep;
use tokio_util::sync::CancellationToken;

async fn contend_with_token(
    lock: &MultiKeyLock,
    key: &str,
    cancel: CancellationToken,
) -> Option<KeyLock> {
    let token_id: u64 = lock.mint_token();
    let mut backoff = Backoff::new(lock.retry_ms, MAX_BACKOFF_MS);
    loop {
        if let Some(guard) = lock.attempt(key, token_id) {
            return Some(guard);
        }
        let delay = Duration::from_millis(backoff.delay_ms());
        let event = match tokio::time::timeout(delay, cancel.cancelled()).await {
            Ok(()) => WaitEvent::Cancelled,
            Err(_) => WaitEvent::Elapsed,
        };
        if !backoff.next_round(event) {
            return None;
        }
    }
}

async fn contend_with_timeout(
    lock: &MultiKeyLock,
    key: &str,
    timeout: Duration,
) -> Option<KeyLock> {
    let cancel = CancellationToken::new();
    let cancel_clone = cancel.clone();
    let handle = tokio::spawn(async move {
        sleep(timeout).await;
        cancel_clone.cancel();
    });
    let result = contend_with_token(lock, key, cancel).await;
    handle.abort();
    result
}

#[test]
fn test_defaults() {
    let lock = MultiKeyLock::new();
    assert_eq!(lock.timeout_ms, DEFAULT_TIMEOUT_MS);
    assert_eq!(lock.timeout_ms, 5000);
    assert_eq!(lock.retry_ms, DEFAULT_RETRY_MS);
    assert_eq!(lock.retry_ms, 10);
    assert_eq!(MAX_BACKOFF_MS, 1000);

    let overridden = MultiKeyLock::with_config(Config {
        registry: None,
        timeout_ms: Some(250),
        retry_ms: None,
    });
    assert_eq!(overridden.timeout_ms, 250);
    assert_eq!(overridden.retry_ms, DEFAULT_RETRY_MS);
}

#[test]
fn test_guard_exposes_key() {
    let lock = MultiKeyLock::new();
    let guard = lock.try_lock_now("resource/alpha").expect("free key must be acquirable");
    assert_eq!(guard.key, "resource/alpha");
}

#[test]
fn test_unrelated_keys_do_not_block() {
    let lock = MultiKeyLock::new();
    let g1 = lock.try_lock_now("left");
    let g2 = lock.try_lock_now("right");
    let g3 = lock.try_lock_now("");
    assert!(g1.is_some());
    assert!(g2.is_some());
    assert!(g3.is_some());
}

// Scenario: an immediate claim on "R1" succeeds, a second claim on "R1"
// fails while the first guard lives, and a third succeeds once it is gone.
#[test]
fn test_immediate_reacquire_cycle() {
    let lock = MultiKeyLock::new();
    let first = lock.try_lock_now("R1");
    assert!(first.is_some());
    let second = lock.try_lock_now("R1");
    assert!(second.is_none());
    drop(first);
    let third = lock.try_lock_now("R1");
    assert!(third.is_some());
}

// Release correctness: an explicit early release frees the key at once for
// the next acquirer, and token minting keeps moving forward.
#[test]
fn test_explicit_release_frees_key() {
    let lock = MultiKeyLock::new();
    let mut guard = lock.try_lock_now("job-7").expect("free key must be acquirable");
    assert!(lock.try_lock_now("job-7").is_none());
    guard.release();
    let next = lock.try_lock_now("job-7");
    assert!(next.is_some(), "released key must be immediately acquirable");
}

// Idempotent release: releasing the same guard twice, or releasing it after
// its key was reassigned to a new holder, never removes the new holder's
// entry.
#[test]
fn test_idempotent_release() {
    let lock = MultiKeyLock::new();
    let mut stale = lock.try_lock_now("shared-key").expect("free key must be acquirable");
    stale.release();
    stale.release();

    let current = lock.try_lock_now("shared-key");
    assert!(current.is_some(), "twice-released key must be acquirable");

    // The stale guard's token no longer matches the entry, so this must not
    // evict the current holder.
    stale.release();
    assert!(
        lock.try_lock_now("shared-key").is_none(),
        "a stale release must not free the new holder's key"
    );

    drop(current);
    assert!(lock.try_lock_now("shared-key").is_some());
}

#[test]
fn test_tokens_are_distinct() {
    let lock = MultiKeyLock::new();
    let first: u64 = lock.mint_token();
    let second: u64 = lock.mint_token();
    assert_ne!(first, second);
}

// Managers built over clones of one registry handle contend on the same
// keys; managers with private registries do not.
#[test]
fn test_shared_registry_across_managers() {
    let shared = Registry::new();
    let a = MultiKeyLock::with_config(Config {
        registry: Some(shared.clone_handle()),
        timeout_ms: None,
        retry_ms: None,
    });
    let b = MultiKeyLock::with_config(Config {
        registry: Some(shared),
        timeout_ms: None,
        retry_ms: None,
    });
    let private = MultiKeyLock::new();

    let held = a.try_lock_now("document-3");
    assert!(held.is_some());
    assert!(b.try_lock_now("document-3").is_none(), "managers must share the registry");
    assert!(private.try_lock_now("document-3").is_some());
}

// Mutual exclusion under concurrency: of many tasks claiming one key at
// once, exactly one wins.
#[test]
fn test_mutual_exclusion_concurrent() {
    tokio::runtime::Runtime::new().unwrap().block_on(async {
        let lock = std::sync::Arc::new(MultiKeyLock::new());
        let mut handles = Vec::new();
        for _ in 0..16 {
            let lock = std::sync::Arc::clone(&lock);
            handles.push(tokio::spawn(async move { lock.try_lock_now("contended") }));
        }
        let mut winners: usize = 0;
        let mut guards = Vec::new();
        for handle in handles {
            let outcome = handle.await.unwrap();
            if let Some(guard) = outcome {
                winners += 1;
                guards.push(guard);
            }
        }
        assert_eq!(winners, 1, "exactly one concurrent claim may win a key");
    });
}

// Mutual exclusion under sustained contention through the waiting mode:
// every waiter eventually holds the key, and never two at once.
#[test]
fn test_mutual_exclusion_waiting_mode() {
    tokio::runtime::Runtime::new().unwrap().block_on(async {
        let lock = std::sync::Arc::new(MultiKeyLock::new());
        let live = std::sync::Arc::new(std::sync::atomic::AtomicUsize::new(0));
        let mut handles = Vec::new();
        for _ in 0..6 {
            let lock = std::sync::Arc::clone(&lock);
            let live = std::sync::Arc::clone(&live);
            handles.push(tokio::spawn(async move {
                let guard = contend_with_timeout(&lock, "hot", Duration::from_secs(15)).await;
                let guard = guard.expect("every waiter should win within the bound");
                let already: usize = live.fetch_add(1, std::sync::atomic::Ordering::SeqCst);
                assert_eq!(already, 0, "two live guards for one key");
                sleep(Duration::from_millis(2)).await;
                live.fetch_sub(1, std::sync::atomic::Ordering::SeqCst);
                drop(guard);
            }));
        }
        for handle in handles {
            handle.await.unwrap();
        }
    });
}

// Non-blocking immediate mode: a failing try never waits.
#[test]
fn test_non_blocking_immediate() {
    let lock = MultiKeyLock::new();
    let held = lock.try_lock_now("busy");
    assert!(held.is_some());
    let start = Instant::now();
    let denied = lock.try_lock_now("busy");
    let elapsed = start.elapsed();
    assert!(denied.is_none());
    assert!(
        elapsed < Duration::from_millis(50),
        "a failing immediate claim must return at once, took {elapsed:?}"
    );
}

// The backoff sequence: with base 10 ms and cap 1 s the delays double as
// 10, 20, 40, 80 and the retry boundaries fall at 10, 30, 70, 150 ms.
#[test]
fn test_backoff_delay_sequence() {
    let mut backoff = Backoff::new(10, 1000);
    let mut boundaries = Vec::new();
    let mut total: u64 = 0;
    for _ in 0..4 {
        total += backoff.delay_ms();
        boundaries.push(total);
        assert!(backoff.next_round(WaitEvent::Elapsed));
    }
    assert_eq!(boundaries, vec![10, 30, 70, 150]);
    assert_eq!(backoff.delay_ms(), 160);
}

// The cap: delays never double past the configured maximum.
#[test]
fn test_backoff_cap() {
    let mut backoff = Backoff::new(600, 1000);
    assert_eq!(backoff.delay_ms(), 600);
    assert!(backoff.next_round(WaitEvent::Elapsed));
    assert_eq!(backoff.delay_ms(), 1000);
    assert!(backoff.next_round(WaitEvent::Elapsed));
    assert_eq!(backoff.delay_ms(), 1000);
}

// A fired cancellation ends the round at once without advancing the
// schedule.
#[test]
fn test_backoff_cancellation_decision() {
    let mut backoff = Backoff::new(10, 1000);
    assert!(backoff.next_round(WaitEvent::Elapsed));
    let before: u64 = backoff.delay_ms();
    assert!(!backoff.next_round(WaitEvent::Cancelled));
    assert_eq!(backoff.delay_ms(), before);
}

// Scenario: a holder keeps "R2" for good; a 30 ms bounded wait comes back
// empty no earlier than its bound.
#[test]
fn test_timeout_lower_bound() {
    tokio::runtime::Runtime::new().unwrap().block_on(async {
        let lock = MultiKeyLock::new();
        let holder = lock.try_lock_now("R2");
        assert!(holder.is_some());
        let start = Instant::now();
        let waited = contend_with_timeout(&lock, "R2", Duration::from_millis(30)).await;
        let elapsed = start.elapsed();
        assert!(waited.is_none());
        assert!(
            elapsed >= Duration::from_millis(30),
            "a bounded wait must not give up before its bound, took {elapsed:?}"
        );
    });
}

// Cancellation responsiveness: a wait told to stop resolves within one
// retry interval of the signal.
#[test]
fn test_cancellation_responsiveness() {
    tokio::runtime::Runtime::new().unwrap().block_on(async {
        let lock = MultiKeyLock::new();
        let holder = lock.try_lock_now("pinned");
        assert!(holder.is_some());

        let cancel = CancellationToken::new();
        let cancel_clone = cancel.clone();
        tokio::spawn(async move {
            sleep(Duration::from_millis(50)).await;
            cancel_clone.cancel();
        });

        let start = Instant::now();
        let waited = contend_with_token(&lock, "pinned", cancel).await;
        let elapsed = start.elapsed();
        assert!(waited.is_none());
        assert!(elapsed >= Duration::from_millis(50), "returned before the signal fired");
        // At 50 ms the waiter is inside its 40 ms round that ends at 70 ms;
        // it must resolve well before sleeping that round out plus another.
        assert!(
            elapsed < Duration::from_millis(150),
            "cancellation must interrupt the current retry sleep, took {elapsed:?}"
        );
    });
}
