//! The channel backend abstraction: a strategy table keyed by
//! (backend, topology). Each cell supplies the producer/consumer pairing, the
//! reply-channel pairing, and whether sending, receiving and awaiting a reply
//! carry a suspension point. Adding a backend means filling one row without
//! touching any other component.

use vstd::prelude::*;

use crate::ir::{Backend, Topology};

verus! {

/// The concrete queue a cell selects.
#[derive(Clone, Copy, PartialEq, Eq, Structural, Debug)]
pub enum QueueKind {
    /// The synchronous backend's unbounded channel.
    StdMpsc,
    /// The synchronous backend's bounded channel.
    StdSyncMpsc,
    /// Runtime-supplied unbounded channel with an awaited receive.
    RuntimeUnbounded,
    /// Runtime-supplied bounded channel: send and receive are awaited.
    RuntimeBounded,
    /// The shared condition-variable batching buffer, defined once and reused
    /// across backends since it only needs a park/wait primitive.
    SharedCondvarQueue,
}

/// The concrete single-use reply channel a cell selects.
#[derive(Clone, Copy, PartialEq, Eq, Structural, Debug)]
pub enum ReplyKind {
    /// The stand-alone one-value channel crate.
    CrateOneshot,
    /// The runtime's own one-value channel.
    RuntimeOneshot,
}

/// Where the run-loop is started.
#[derive(Clone, Copy, PartialEq, Eq, Structural, Debug)]
pub enum SpawnKind {
    /// A dedicated thread: the synchronous backend.
    Thread,
    /// A task spawned on the backend's runtime.
    Task,
}

/// One cell of the strategy table: everything the run-loop and proxy
/// synthesizers need from a (backend, topology) pair.
#[derive(Clone, Copy, PartialEq, Eq, Structural, Debug)]
pub struct ChannelPrimitives {
    pub queue: QueueKind,
    /// The bounded capacity, present exactly for the bounded topology.
    pub bound: Option<usize>,
    /// Sending a message is awaited.
    pub send_awaits: bool,
    /// Receiving the next message is awaited.
    pub recv_awaits: bool,
    pub reply: ReplyKind,
    /// Awaiting the reply is an `await`; otherwise it blocks the caller.
    pub reply_awaits: bool,
    pub spawn: SpawnKind,
}

/// The strategy table itself.
pub open spec fn primitives_of(lib: Backend, channel: Topology) -> ChannelPrimitives {
    match channel {
        Topology::Unbounded => match lib {
            Backend::Std => ChannelPrimitives {
                queue: QueueKind::StdMpsc,
                bound: None,
                send_awaits: false,
                recv_awaits: false,
                reply: ReplyKind::CrateOneshot,
                reply_awaits: false,
                spawn: SpawnKind::Thread,
            },
            Backend::Tokio => ChannelPrimitives {
                queue: QueueKind::RuntimeUnbounded,
                bound: None,
                send_awaits: false,
                recv_awaits: true,
                reply: ReplyKind::RuntimeOneshot,
                reply_awaits: true,
                spawn: SpawnKind::Task,
            },
            Backend::AsyncStd | Backend::Smol => ChannelPrimitives {
                queue: QueueKind::RuntimeUnbounded,
                bound: None,
                send_awaits: true,
                recv_awaits: true,
                reply: ReplyKind::CrateOneshot,
                reply_awaits: true,
                spawn: SpawnKind::Task,
            },
        },
        Topology::Bounded(c) => match lib {
            Backend::Std => ChannelPrimitives {
                queue: QueueKind::StdSyncMpsc,
                bound: Some(c),
                send_awaits: false,
                recv_awaits: false,
                reply: ReplyKind::CrateOneshot,
                reply_awaits: false,
                spawn: SpawnKind::Thread,
            },
            Backend::Tokio => ChannelPrimitives {
                queue: QueueKind::RuntimeBounded,
                bound: Some(c),
                send_awaits: true,
                recv_awaits: true,
                reply: ReplyKind::RuntimeOneshot,
                reply_awaits: true,
                spawn: SpawnKind::Task,
            },
            Backend::AsyncStd | Backend::Smol => ChannelPrimitives {
                queue: QueueKind::RuntimeBounded,
                bound: Some(c),
                send_awaits: true,
                recv_awaits: true,
                reply: ReplyKind::CrateOneshot,
                reply_awaits: true,
                spawn: SpawnKind::Task,
            },
        },
        Topology::BatchedCondvar => ChannelPrimitives {
            queue: QueueKind::SharedCondvarQueue,
            bound: None,
            send_awaits: false,
            recv_awaits: false,
            reply: ReplyKind::CrateOneshot,
            reply_awaits: false,
            spawn: if lib == Backend::Std {
                SpawnKind::Thread
            } else {
                SpawnKind::Task
            },
        },
    }
}

/// Looks one cell up.
pub fn primitives(lib: Backend, channel: Topology) -> (r: ChannelPrimitives)
    ensures
        r == primitives_of(lib, channel),
{
    match channel {
        Topology::Unbounded => match lib {
            Backend::Std => ChannelPrimitives {
                queue: QueueKind::StdMpsc,
                bound: None,
                send_awaits: false,
                recv_awaits: false,
                reply: ReplyKind::CrateOneshot,
                reply_awaits: false,
                spawn: SpawnKind::Thread,
            },
            Backend::Tokio => ChannelPrimitives {
                queue: QueueKind::RuntimeUnbounded,
                bound: None,
                send_awaits: false,
                recv_awaits: true,
                reply: ReplyKind::RuntimeOneshot,
                reply_awaits: true,
                spawn: SpawnKind::Task,
            },
            Backend::AsyncStd | Backend::Smol => ChannelPrimitives {
                queue: QueueKind::RuntimeUnbounded,
                bound: None,
                send_awaits: true,
                recv_awaits: true,
                reply: ReplyKind::CrateOneshot,
                reply_awaits: true,
                spawn: SpawnKind::Task,
            },
        },
        Topology::Bounded(c) => match lib {
            Backend::Std => ChannelPrimitives {
                queue: QueueKind::StdSyncMpsc,
                bound: Some(c),
                send_awaits: false,
                recv_awaits: false,
                reply: ReplyKind::CrateOneshot,
                reply_awaits: false,
                spawn: SpawnKind::Thread,
            },
            Backend::Tokio => ChannelPrimitives {
                queue: QueueKind::RuntimeBounded,
                bound: Some(c),
                send_awaits: true,
                recv_awaits: true,
                reply: ReplyKind::RuntimeOneshot,
                reply_awaits: true,
                spawn: SpawnKind::Task,
            },
            Backend::AsyncStd | Backend::Smol => ChannelPrimitives {
                queue: QueueKind::RuntimeBounded,
                bound: Some(c),
                send_awaits: true,
                recv_awaits: true,
                reply: ReplyKind::CrateOneshot,
                reply_awaits: true,
                spawn: SpawnKind::Task,
            },
        },
        Topology::BatchedCondvar => ChannelPrimitives {
            queue: QueueKind::SharedCondvarQueue,
            bound: None,
            send_awaits: false,
            recv_awaits: false,
            reply: ReplyKind::CrateOneshot,
            reply_awaits: false,
            spawn: if lib == Backend::Std {
                SpawnKind::Thread
            } else {
                SpawnKind::Task
            },
        },
    }
}

/// The condition-variable batching queue is defined once: every backend gets
/// the same cell for it, up to where the run-loop is spawned.
pub proof fn lemma_batched_uniform(l1: Backend, l2: Backend)
    ensures
        primitives_of(l1, Topology::BatchedCondvar).queue == primitives_of(
            l2,
            Topology::BatchedCondvar,
        ).queue,
        primitives_of(l1, Topology::BatchedCondvar).bound == primitives_of(
            l2,
            Topology::BatchedCondvar,
        ).bound,
        primitives_of(l1, Topology::BatchedCondvar).send_awaits == primitives_of(
            l2,
            Topology::BatchedCondvar,
        ).send_awaits,
        primitives_of(l1, Topology::BatchedCondvar).recv_awaits == primitives_of(
            l2,
            Topology::BatchedCondvar,
        ).recv_awaits,
        primitives_of(l1, Topology::BatchedCondvar).reply == primitives_of(
            l2,
            Topology::BatchedCondvar,
        ).reply,
        primitives_of(l1, Topology::BatchedCondvar).reply_awaits == primitives_of(
            l2,
            Topology::BatchedCondvar,
        ).reply_awaits,
{
}

/// A capacity is recorded exactly for the bounded topology, and it is the
/// configured one: backpressure exists only under `Bounded`.
pub proof fn lemma_bound_iff_bounded(lib: Backend, channel: Topology)
    ensures
        (primitives_of(lib, channel).bound is Some) <==> (channel is Bounded),
        channel is Bounded ==> primitives_of(lib, channel).bound == Some(channel->0),
{
}

/// The synchronous backend never awaits: all its suspension points block the
/// calling thread instead.
pub proof fn lemma_std_never_awaits(channel: Topology)
    ensures
        !primitives_of(Backend::Std, channel).send_awaits,
        !primitives_of(Backend::Std, channel).recv_awaits,
        !primitives_of(Backend::Std, channel).reply_awaits,
        primitives_of(Backend::Std, channel).spawn == SpawnKind::Thread,
{
}

} // verus!
