//! The synchronous backend's concrete channel primitives, behind trusted
//! declarations: the standard library's multi-producer/single-consumer
//! queues for the unbounded and bounded topologies, and the one-value
//! channel crate for replies. What travels through a channel comes from
//! another thread, so no wrapper promises anything about a received value.

use vstd::prelude::*;

verus! {

#[verifier::external_type_specification]
#[verifier::external_body]
#[verifier::reject_recursive_types(T)]
pub struct ExMpscSender<T>(std::sync::mpsc::Sender<T>);

#[verifier::external_type_specification]
#[verifier::external_body]
#[verifier::reject_recursive_types(T)]
pub struct ExMpscSyncSender<T>(std::sync::mpsc::SyncSender<T>);

#[verifier::external_type_specification]
#[verifier::external_body]
#[verifier::reject_recursive_types(T)]
pub struct ExMpscReceiver<T>(std::sync::mpsc::Receiver<T>);

#[verifier::external_type_specification]
#[verifier::external_body]
#[verifier::reject_recursive_types(T)]
pub struct ExOneshotSender<T>(oneshot::Sender<T>);

#[verifier::external_type_specification]
#[verifier::external_body]
#[verifier::reject_recursive_types(T)]
pub struct ExOneshotReceiver<T>(oneshot::Receiver<T>);

/// What became of a non-suspending send into a bounded queue.
pub enum SendAttempt<T> {
    /// The message entered the queue.
    Delivered,
    /// The queue holds its full capacity; the message comes back.
    Full(T),
    /// The consumer is gone; the message comes back.
    Closed(T),
}

/// Relies on std::sync::mpsc::channel: a fresh unbounded queue pair.
#[verifier::external_body]
pub fn channel_unbounded<T>() -> (std::sync::mpsc::Sender<T>, std::sync::mpsc::Receiver<T>) {
    std::sync::mpsc::channel()
}

/// Relies on std::sync::mpsc::sync_channel: a fresh bounded queue pair whose
/// buffer holds `cap` messages before senders block.
#[verifier::external_body]
pub fn channel_bounded<T>(cap: usize) -> (
    std::sync::mpsc::SyncSender<T>,
    std::sync::mpsc::Receiver<T>,
) {
    std::sync::mpsc::sync_channel(cap)
}

/// Relies on std::sync::mpsc::Sender::send: fails exactly when the receiving
/// end was dropped, handing the message back unchanged. Never blocks.
#[verifier::external_body]
pub fn sender_send<T>(tx: &std::sync::mpsc::Sender<T>, t: T) -> (r: Result<(), T>)
    ensures
        r matches Err(m) ==> m == t,
{
    match tx.send(t) {
        Ok(()) => Ok(()),
        Err(std::sync::mpsc::SendError(m)) => Err(m),
    }
}

/// Relies on std::sync::mpsc::Sender::clone: another producer for the same
/// queue.
#[verifier::external_body]
pub fn sender_clone<T>(tx: &std::sync::mpsc::Sender<T>) -> std::sync::mpsc::Sender<T> {
    tx.clone()
}

/// Relies on std::sync::mpsc::SyncSender::send: blocks while the buffer is
/// full, and fails exactly when the receiving end was dropped, handing the
/// message back unchanged. May block forever if the consumer neither reads
/// nor drops.
#[verifier::external_body]
pub fn sync_send<T>(tx: &std::sync::mpsc::SyncSender<T>, t: T) -> (r: Result<(), T>)
    ensures
        r matches Err(m) ==> m == t,
{
    match tx.send(t) {
        Ok(()) => Ok(()),
        Err(std::sync::mpsc::SendError(m)) => Err(m),
    }
}

/// Relies on std::sync::mpsc::SyncSender::try_send: never blocks; reports a
/// full buffer or a dropped consumer, handing the message back unchanged.
#[verifier::external_body]
pub fn sync_try_send<T>(tx: &std::sync::mpsc::SyncSender<T>, t: T) -> (r: SendAttempt<T>)
    ensures
        r matches SendAttempt::Full(m) ==> m == t,
        r matches SendAttempt::Closed(m) ==> m == t,
{
    match tx.try_send(t) {
        Ok(()) => SendAttempt::Delivered,
        Err(std::sync::mpsc::TrySendError::Full(m)) => SendAttempt::Full(m),
        Err(std::sync::mpsc::TrySendError::Disconnected(m)) => SendAttempt::Closed(m),
    }
}

/// Relies on std::sync::mpsc::SyncSender::clone: another producer for the
/// same bounded queue.
#[verifier::external_body]
pub fn sync_sender_clone<T>(
    tx: &std::sync::mpsc::SyncSender<T>,
) -> std::sync::mpsc::SyncSender<T> {
    tx.clone()
}

/// Relies on std::sync::mpsc::Receiver::recv: blocks until a message
/// arrives, and returns `None` exactly when every producer was dropped and
/// the buffer is empty — the queue reports itself closed. Nothing is
/// promised of a received value: it came from another thread.
#[verifier::external_body]
pub fn receiver_recv<T>(rx: &std::sync::mpsc::Receiver<T>) -> Option<T> {
    match rx.recv() {
        Ok(t) => Some(t),
        Err(std::sync::mpsc::RecvError) => None,
    }
}

/// Relies on oneshot::channel: a fresh single-use reply pair.
#[verifier::external_body]
pub fn reply_channel<T>() -> (oneshot::Sender<T>, oneshot::Receiver<T>) {
    oneshot::channel()
}

/// Relies on oneshot::Sender::send: consumes the sender — a reply channel is
/// used exactly once — and fails exactly when the receiver was already
/// dropped, handing the message back unchanged. Never blocks.
#[verifier::external_body]
pub fn reply_send<T>(tx: oneshot::Sender<T>, t: T) -> (r: Result<(), T>)
    ensures
        r matches Err(m) ==> m == t,
{
    match tx.send(t) {
        Ok(()) => Ok(()),
        Err(e) => Err(e.into_inner()),
    }
}

/// Relies on oneshot::Receiver::recv: consumes the receiver, blocks until
/// the one value is sent, and returns `None` exactly when the sender was
/// dropped without sending. Nothing is promised of a received value: it came
/// from another thread.
#[verifier::external_body]
pub fn reply_recv<T>(rx: oneshot::Receiver<T>) -> Option<T> {
    match rx.recv() {
        Ok(t) => Some(t),
        Err(_) => None,
    }
}

} // verus!
