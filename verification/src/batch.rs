//! The condition-variable batching queue: a shared buffer drained as one
//! batch under a lock and processed outside it. Termination is detected by
//! reference counting the shared queue handle — the run-loop exits once the
//! buffer is empty and only the consumer itself still holds the queue, that
//! is, every proxy has been dropped. Only the consumer and the live proxies
//! may hold queue handles: an extra internal clone would make that detection
//! misfire.

use vstd::prelude::*;

use crate::counter::CounterMsg;

verus! {

/// The shared buffer with its lock and condition variable. Opaque to the
/// verifier: its contents change under other threads' hands, so the verified
/// run-loop treats every drained batch as arbitrary input.
#[verifier::external_body]
pub struct BatchQueue {
    inner: std::sync::Arc<(std::sync::Mutex<std::vec::Vec<CounterMsg>>, std::sync::Condvar)>,
}

/// What the batching run-loop should do next, given what it saw under the
/// lock: a non-empty buffer is drained; an empty one with producers still
/// alive is waited on; an empty one with no producer left ends the loop.
#[derive(Clone, Copy, PartialEq, Eq, Structural, Debug)]
pub enum BatchDecision {
    Drain,
    Wait,
    Exit,
}

/// The decision table: drain while there is work, wait while some proxy may
/// still send, exit once abandoned.
pub open spec fn decision_of(buffered: nat, holders: nat) -> BatchDecision {
    if buffered > 0 {
        BatchDecision::Drain
    } else if holders > 1 {
        BatchDecision::Wait
    } else {
        BatchDecision::Exit
    }
}

/// Decides the next move from the buffer length and the number of live queue
/// handles (the consumer's own included).
pub fn decide(buffered: usize, holders: usize) -> (d: BatchDecision)
    ensures
        d == decision_of(buffered as nat, holders as nat),
{
    if buffered > 0 {
        BatchDecision::Drain
    } else if holders > 1 {
        BatchDecision::Wait
    } else {
        BatchDecision::Exit
    }
}

/// The run-loop exits exactly when the buffer is empty and every handle but
/// the consumer's own is gone — dropping the last proxy is what ends it.
pub proof fn lemma_exit_iff_abandoned(buffered: nat, holders: nat)
    ensures
        (decision_of(buffered, holders) is Exit) <==> (buffered == 0 && holders <= 1),
        (decision_of(buffered, holders) is Wait) <==> (buffered == 0 && holders > 1),
        (decision_of(buffered, holders) is Drain) <==> (buffered > 0),
{
}

/// Relies on Arc::new, Mutex::new and Condvar::new: a fresh, empty shared
/// buffer.
#[verifier::external_body]
pub fn batch_queue() -> BatchQueue {
    BatchQueue {
        inner: std::sync::Arc::new(
            (std::sync::Mutex::new(std::vec::Vec::new()), std::sync::Condvar::new()),
        ),
    }
}

/// Relies on Arc::clone: another handle to the same buffer; the handle count
/// grows by one, which the termination detection watches.
#[verifier::external_body]
pub fn queue_dup(q: &BatchQueue) -> BatchQueue {
    BatchQueue { inner: std::sync::Arc::clone(&q.inner) }
}

/// Relies on Mutex::lock, Vec::push and Condvar::notify_one: appends the
/// message under the lock and wakes the consumer. A poisoned lock is taken
/// over rather than propagated.
#[verifier::external_body]
pub fn queue_push(q: &BatchQueue, m: CounterMsg) {
    let mut guard = q.inner.0.lock().unwrap_or_else(std::sync::PoisonError::into_inner);
    guard.push(m);
    q.inner.1.notify_one();
}

/// Relies on Mutex::lock and std::mem::take: removes and returns the whole
/// buffer as one batch, atomically, leaving it empty. Nothing is promised of
/// the contents: producers fill the buffer concurrently.
#[verifier::external_body]
pub fn queue_drain(q: &BatchQueue) -> std::vec::Vec<CounterMsg> {
    let mut guard = q.inner.0.lock().unwrap_or_else(std::sync::PoisonError::into_inner);
    std::mem::take(&mut *guard)
}

/// Relies on Mutex::lock and Condvar::wait_timeout: parks the consumer until
/// a push notifies it or a bounded pause elapses — the timed re-check guards
/// against missed and spurious wakes, so the caller must re-check emptiness
/// afterwards. Returns at once if the buffer is already non-empty.
#[verifier::external_body]
pub fn queue_wait(q: &BatchQueue) {
    let guard = q.inner.0.lock().unwrap_or_else(std::sync::PoisonError::into_inner);
    if guard.is_empty() {
        let _ = q.inner.1.wait_timeout(guard, std::time::Duration::from_millis(50));
    }
}

/// Relies on Arc::strong_count: how many handles to the shared buffer exist
/// at some moment, the consumer's own included. Other threads may change it
/// at any time; the one stable fact is that the argument itself keeps the
/// count at one or more for the whole call.
#[verifier::external_body]
pub fn queue_holders(q: &BatchQueue) -> (r: usize)
    ensures
        r >= 1,
{
    std::sync::Arc::strong_count(&q.inner)
}

} // verus!
