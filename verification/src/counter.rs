//! The sample wrapped object and its wrapper, constructed directly rather
//! than emitted as text: the message union with one case per method, the
//! dispatcher applying a message to the exclusively-owned instance, the
//! run-loop step for each topology of the synchronous backend, and the
//! cloneable proxy handle that reaches the instance only through channels.

use vstd::prelude::*;

use crate::batch::{decide, queue_drain, queue_dup, queue_holders, queue_push, queue_wait,
    BatchDecision, BatchQueue};
use crate::channel::{channel_bounded, channel_unbounded, receiver_recv, reply_channel,
    reply_recv, reply_send, sender_clone, sender_send, sync_sender_clone, sync_send,
    sync_try_send, SendAttempt};
use crate::errors::RuntimeFault;
use crate::identity::{DebutMint, IdentityToken};
use crate::ir::Topology;

verus! {

/// The wrapped object: a plain counter with private state, mutated only by
/// its run-loop once wrapped.
pub struct Counter {
    pub value: i64,
}

impl Counter {
    pub fn new(value: i64) -> (r: Counter)
        ensures
            r.value == value,
    {
        Counter { value }
    }

    pub fn increment(&mut self)
        requires
            old(self).value < i64::MAX,
        ensures
            final(self).value == old(self).value + 1,
    {
        self.value = self.value + 1;
    }

    pub fn add_number(&mut self, num: i64) -> (r: i64)
        requires
            i64::MIN <= old(self).value + num <= i64::MAX,
        ensures
            final(self).value == old(self).value + num,
            r == final(self).value,
    {
        self.value = self.value + num;
        self.value
    }

    pub fn get_value(&self) -> (r: i64)
        ensures
            r == self.value,
    {
        self.value
    }
}

/// One invocable operation, as a plain value: what a message means once its
/// reply sender is set aside.
#[derive(Clone, Copy, PartialEq, Eq, Structural, Debug)]
pub enum CounterOp {
    Increment,
    AddNumber(i64),
    GetValue,
}

/// Whether the operation's arithmetic stays in range on the value `v`.
pub open spec fn op_in_bounds(op: CounterOp, v: int) -> bool {
    match op {
        CounterOp::Increment => v < i64::MAX,
        CounterOp::AddNumber(n) => i64::MIN <= v + n <= i64::MAX,
        CounterOp::GetValue => true,
    }
}

/// The instance value after applying the operation to the value `v`.
pub open spec fn value_after(op: CounterOp, v: int) -> int {
    match op {
        CounterOp::Increment => v + 1,
        CounterOp::AddNumber(n) => v + n,
        CounterOp::GetValue => v,
    }
}

/// What the operation replies on the value `v`: present exactly for the
/// output-carrying operations, and equal to what the wrapped method itself
/// returns when called directly.
pub open spec fn reply_of(op: CounterOp, v: int) -> Option<int> {
    match op {
        CounterOp::Increment => None,
        CounterOp::AddNumber(n) => Some(v + n),
        CounterOp::GetValue => Some(v),
    }
}

/// The value the instance holds after a whole batch, applied in order.
pub open spec fn value_after_seq(ops: Seq<CounterOp>, v: int) -> int
    decreases ops.len(),
{
    if ops.len() == 0 {
        v
    } else {
        value_after_seq(ops.drop_first(), value_after(ops[0], v))
    }
}

/// The whole batch stays in range, each operation on the value the previous
/// ones left.
pub open spec fn ops_in_bounds(ops: Seq<CounterOp>, v: int) -> bool
    decreases ops.len(),
{
    ops.len() == 0 || (op_in_bounds(ops[0], v) && ops_in_bounds(
        ops.drop_first(),
        value_after(ops[0], v),
    ))
}

/// Appending one operation to a batch applies it to the batch's final value.
pub proof fn lemma_value_after_seq_push(ops: Seq<CounterOp>, op: CounterOp, v: int)
    ensures
        value_after_seq(ops.push(op), v) == value_after(op, value_after_seq(ops, v)),
        ops_in_bounds(ops.push(op), v) == (ops_in_bounds(ops, v) && op_in_bounds(
            op,
            value_after_seq(ops, v),
        )),
    decreases ops.len(),
{
    reveal_with_fuel(value_after_seq, 3);
    reveal_with_fuel(ops_in_bounds, 3);
    if ops.len() == 0 {
        assert(ops.push(op).drop_first() =~= Seq::<CounterOp>::empty());
        assert(ops.push(op)[0] == op);
    } else {
        assert(ops.push(op).drop_first() =~= ops.drop_first().push(op));
        lemma_value_after_seq_push(ops.drop_first(), op, value_after(ops[0], v));
    }
}

/// One increment and one addition yield the same final value in either
/// interleaving order: with the run-loop serializing access, the outcome of
/// the two concurrent callers does not depend on who goes first.
pub proof fn lemma_interleavings_agree(v: int, n: i64)
    ensures
        value_after(CounterOp::Increment, value_after(CounterOp::AddNumber(n), v)) == value_after(
            CounterOp::AddNumber(n),
            value_after(CounterOp::Increment, v),
        ),
{
}

/// For the output-carrying operations the replied value equals what the
/// wrapped method returns when called directly on the same state; the
/// fire-and-forget operations reply nothing.
pub proof fn lemma_reply_equals_direct(op: CounterOp, v: int)
    requires
        op_in_bounds(op, v),
    ensures
        op matches CounterOp::AddNumber(n) ==> reply_of(op, v) == Some(v + n) && value_after(
            op,
            v,
        ) == v + n,
        op is GetValue ==> reply_of(op, v) == Some(v) && value_after(op, v) == v,
        op is Increment ==> reply_of(op, v) is None && value_after(op, v) == v + 1,
{
}

/// The message union: one case per wrapped method, named after it, holding
/// the input tuple where the method takes inputs and a single-use reply
/// sender where it returns a value.
pub enum CounterMsg {
    Increment,
    AddNumber { input: i64, output: oneshot::Sender<i64> },
    GetValue { output: oneshot::Sender<i64> },
}

/// The plain operation a message carries, its reply sender set aside.
pub open spec fn op_of(m: CounterMsg) -> CounterOp {
    match m {
        CounterMsg::Increment => CounterOp::Increment,
        CounterMsg::AddNumber { input, .. } => CounterOp::AddNumber(input),
        CounterMsg::GetValue { .. } => CounterOp::GetValue,
    }
}

/// The debug face of a message: the variant's name only — payload values,
/// the unprintable reply senders included, are never rendered.
pub fn counter_msg_label(m: &CounterMsg) -> (r: &'static str)
    ensures
        m is Increment ==> r@ == "Increment"@,
        m is AddNumber ==> r@ == "AddNumber"@,
        m is GetValue ==> r@ == "GetValue"@,
{
    match m {
        CounterMsg::Increment => "Increment",
        CounterMsg::AddNumber { .. } => "AddNumber",
        CounterMsg::GetValue { .. } => "GetValue",
    }
}

/// Lifts an executable reply to the specification's integers.
pub open spec fn reply_view(r: Option<i64>) -> Option<int> {
    match r {
        Some(v) => Some(v as int),
        None => None,
    }
}

/// Applies one operation to the exclusively-owned instance and computes the
/// reply: the serialization point every caller's request passes through. The
/// reply equals what the wrapped method returns when called directly.
pub fn respond(actor: &mut Counter, op: CounterOp) -> (reply: Option<i64>)
    requires
        op_in_bounds(op, old(actor).value as int),
    ensures
        final(actor).value as int == value_after(op, old(actor).value as int),
        reply_view(reply) == reply_of(op, old(actor).value as int),
{
    match op {
        CounterOp::Increment => {
            actor.increment();
            None
        },
        CounterOp::AddNumber(n) => Some(actor.add_number(n)),
        CounterOp::GetValue => Some(actor.get_value()),
    }
}

/// Maps the reply sender's outcome: fatal exactly when the send failed —
/// a caller who abandoned its reply slot is a programming error, never
/// swallowed.
pub fn reply_outcome(sent: Result<(), i64>) -> (r: Result<(), RuntimeFault>)
    ensures
        (r is Ok) <==> (sent is Ok),
        r matches Err(f) ==> f == RuntimeFault::DispatchReplyClosed,
{
    match sent {
        Ok(()) => Ok(()),
        Err(_) => Err(RuntimeFault::DispatchReplyClosed),
    }
}

/// Dispatches one message: invokes the matching method with its captured
/// inputs and, when a reply sender is present, sends the result through it.
/// A reply-send failure is `DispatchReplyClosed`, fatal to the host unit —
/// for a message without a reply sender, success is owed; a method whose
/// arithmetic would wrap is `MethodPanicked` and leaves the instance
/// untouched.
pub fn direct(msg: CounterMsg, actor: &mut Counter) -> (r: Result<(), RuntimeFault>)
    ensures
        op_in_bounds(op_of(msg), old(actor).value as int) ==> {
            &&& final(actor).value as int == value_after(op_of(msg), old(actor).value as int)
            &&& (r matches Err(f) ==> f == RuntimeFault::DispatchReplyClosed)
            &&& (op_of(msg) is Increment ==> r == Ok::<(), RuntimeFault>(()))
        },
        !op_in_bounds(op_of(msg), old(actor).value as int) ==> {
            &&& r == Err::<(), RuntimeFault>(RuntimeFault::MethodPanicked)
            &&& *final(actor) == *old(actor)
        },
{
    match msg {
        CounterMsg::Increment => {
            if actor.value == i64::MAX {
                return Err(RuntimeFault::MethodPanicked);
            }
            actor.increment();
            Ok(())
        },
        CounterMsg::AddNumber { input, output } => {
            let wide: i128 = actor.value as i128 + input as i128;
            if wide > i64::MAX as i128 || wide < i64::MIN as i128 {
                return Err(RuntimeFault::MethodPanicked);
            }
            let reply = actor.add_number(input);
            reply_outcome(reply_send(output, reply))
        },
        CounterMsg::GetValue { output } => {
            let reply = actor.get_value();
            reply_outcome(reply_send(output, reply))
        },
    }
}

/// The plain operation a message carries, extracted executably.
pub fn op_of_msg(m: &CounterMsg) -> (op: CounterOp)
    ensures
        op == op_of(*m),
{
    match m {
        CounterMsg::Increment => CounterOp::Increment,
        CounterMsg::AddNumber { input, .. } => CounterOp::AddNumber(*input),
        CounterMsg::GetValue { .. } => CounterOp::GetValue,
    }
}

/// The consumer end the run-loop owns, per topology.
pub enum CounterReceiver {
    Queue(std::sync::mpsc::Receiver<CounterMsg>),
    Batched(BatchQueue),
}

/// What one run-loop step did.
pub enum StepEvent {
    /// These operations were applied to the instance, in this order — a
    /// whole drained batch for the batching topology, a single message
    /// otherwise.
    Processed(Vec<CounterOp>),
    /// The batching consumer parked and must re-check: nothing changed.
    Waited,
    /// The channel reports closed (every producer dropped), or the batching
    /// buffer is empty with no producer left: the run-loop is done and the
    /// instance's life ends.
    Closed,
}

/// The run-loop's state: it exclusively owns the instance for its whole
/// lifetime; nothing else ever touches it.
pub struct CounterPlay {
    pub receiver: CounterReceiver,
    pub actor: Counter,
}

impl CounterPlay {
    /// One step of the run-loop: receive per the topology, dispatch, report.
    /// Every applied batch stays in range and moves the instance exactly as
    /// the operations prescribe, in order; a step that applies nothing
    /// leaves the instance untouched. The host drives this in a loop until
    /// `Closed` or an error, both fatal.
    pub fn step(&mut self) -> (r: Result<StepEvent, RuntimeFault>)
        ensures
            match r {
                Ok(StepEvent::Processed(ops)) => {
                    &&& ops@.len() > 0
                    &&& (old(self).receiver is Queue ==> ops@.len() == 1)
                    &&& ops_in_bounds(ops@, old(self).actor.value as int)
                    &&& final(self).actor.value as int == value_after_seq(
                        ops@,
                        old(self).actor.value as int,
                    )
                },
                Ok(StepEvent::Waited) => final(self).actor == old(self).actor && old(
                    self,
                ).receiver is Batched,
                Ok(StepEvent::Closed) => final(self).actor == old(self).actor,
                Err(f) => f == RuntimeFault::DispatchReplyClosed || f
                    == RuntimeFault::MethodPanicked,
            },
    {
        match &self.receiver {
            CounterReceiver::Queue(rx) => {
                let msg = match receiver_recv(rx) {
                    None => {
                        return Ok(StepEvent::Closed);
                    },
                    Some(m) => m,
                };
                let op = op_of_msg(&msg);
                if !op_check(op, self.actor.value) {
                    return Err(RuntimeFault::MethodPanicked);
                }
                let ghost v0 = old(self).actor.value as int;
                match direct(msg, &mut self.actor) {
                    Ok(()) => {
                        let mut ops: Vec<CounterOp> = Vec::new();
                        ops.push(op);
                        proof {
                            reveal_with_fuel(value_after_seq, 2);
                            reveal_with_fuel(ops_in_bounds, 2);
                            assert(ops@ =~= Seq::<CounterOp>::empty().push(op));
                            lemma_value_after_seq_push(Seq::<CounterOp>::empty(), op, v0);
                        }
                        Ok(StepEvent::Processed(ops))
                    },
                    Err(f) => Err(f),
                }
            },
            CounterReceiver::Batched(q) => {
                let mut batch = queue_drain(q);
                if batch.len() == 0 {
                    let holders = queue_holders(q);
                    if decide(batch.len(), holders) == BatchDecision::Wait {
                        queue_wait(q);
                        return Ok(StepEvent::Waited);
                    }
                    // No producer is left, so nothing can arrive after this
                    // final sweep; it catches a message pushed between the
                    // first drain and the handle count.
                    batch = queue_drain(q);
                    if batch.len() == 0 {
                        return Ok(StepEvent::Closed);
                    }
                }
                let ghost v0 = self.actor.value as int;
                let ghost total = batch@.len() as int;
                let mut ops: Vec<CounterOp> = Vec::new();
                while batch.len() > 0
                    invariant
                        ops_in_bounds(ops@, v0),
                        self.actor.value as int == value_after_seq(ops@, v0),
                        ops@.len() + batch@.len() == total,
                    decreases batch@.len(),
                {
                    let msg = batch.remove(0);
                    let op = op_of_msg(&msg);
                    if !op_check(op, self.actor.value) {
                        return Err(RuntimeFault::MethodPanicked);
                    }
                    match direct(msg, &mut self.actor) {
                        Ok(()) => {},
                        Err(f) => {
                            return Err(f);
                        },
                    }
                    proof {
                        lemma_value_after_seq_push(ops@, op, v0);
                    }
                    ops.push(op);
                }
                Ok(StepEvent::Processed(ops))
            },
        }
    }
}

/// Whether the operation stays in range on the value `v`, executably.
pub fn op_check(op: CounterOp, v: i64) -> (r: bool)
    ensures
        r == op_in_bounds(op, v as int),
{
    match op {
        CounterOp::Increment => v < i64::MAX,
        CounterOp::AddNumber(n) => {
            let wide: i128 = v as i128 + n as i128;
            i64::MIN as i128 <= wide && wide <= i64::MAX as i128
        },
        CounterOp::GetValue => true,
    }
}

/// The terminal diagnostic the host emits when a run-loop exits.
pub fn end_of_life_line(name: &str) -> (r: String)
    ensures
        r@ == name@ + " end of life ..."@,
{
    name.to_owned().concat(" end of life ...")
}

/// The producer end a proxy holds, per topology.
pub enum CounterSender {
    Unbounded(std::sync::mpsc::Sender<CounterMsg>),
    Bounded(std::sync::mpsc::SyncSender<CounterMsg>),
    Batched(BatchQueue),
}

/// The cloneable proxy handle: it holds only channel endpoints and the
/// optional identity token, and never touches the instance directly.
pub struct CounterLive {
    pub sender: CounterSender,
    pub identity: Option<IdentityToken>,
}

/// Builds the channel pair per the topology and hands the identity token, if
/// one was minted, to the proxy side.
fn assembled(value: i64, channel: &Topology, identity: Option<IdentityToken>) -> (r: (
    CounterLive,
    CounterPlay,
))
    ensures
        r.1.actor.value == value,
        r.0.identity == identity,
        (r.0.sender is Unbounded) <==> (channel is Unbounded),
        (r.0.sender is Bounded) <==> (channel is Bounded),
        (r.0.sender is Batched) <==> (channel is BatchedCondvar),
        (r.1.receiver is Batched) <==> (channel is BatchedCondvar),
{
    let actor = Counter::new(value);
    match channel {
        Topology::Unbounded => {
            let (tx, rx) = channel_unbounded();
            (
                CounterLive { sender: CounterSender::Unbounded(tx), identity },
                CounterPlay { receiver: CounterReceiver::Queue(rx), actor },
            )
        },
        Topology::Bounded(c) => {
            let (tx, rx) = channel_bounded(*c);
            (
                CounterLive { sender: CounterSender::Bounded(tx), identity },
                CounterPlay { receiver: CounterReceiver::Queue(rx), actor },
            )
        },
        Topology::BatchedCondvar => {
            let q = crate::batch::batch_queue();
            let consumer = queue_dup(&q);
            (
                CounterLive { sender: CounterSender::Batched(q), identity },
                CounterPlay { receiver: CounterReceiver::Batched(consumer), actor },
            )
        },
    }
}

/// The channel endpoints for one wrapped instance under the given topology,
/// without identity: the proxy's producer side and the run-loop's consumer
/// side. The host starts the run-loop on its own concurrency unit and drives
/// [`CounterPlay::step`] until it reports `Closed`.
pub fn counter_pair(value: i64, channel: &Topology) -> (r: (CounterLive, CounterPlay))
    ensures
        r.1.actor.value == value,
        r.0.identity is None,
        (r.0.sender is Unbounded) <==> (channel is Unbounded),
        (r.0.sender is Bounded) <==> (channel is Bounded),
        (r.0.sender is Batched) <==> (channel is BatchedCondvar),
        (r.1.receiver is Batched) <==> (channel is BatchedCondvar),
{
    assembled(value, channel, None)
}

/// Like [`counter_pair`], and additionally mints a construction-order token
/// through the given cell: the handle's instant is the one the cell just
/// produced, strictly greater than the cell's previous value everywhere
/// below the instant space's ceiling, with an empty label.
pub fn counter_pair_with_identity(value: i64, channel: &Topology, mint: &mut DebutMint) -> (r: (
    CounterLive,
    CounterPlay,
))
    ensures
        r.1.actor.value == value,
        (r.0.identity matches Some(t) && {
            &&& *t.debut == final(mint).last
            &&& *t.debut >= old(mint).last
            &&& (old(mint).last < u128::MAX - 1 ==> *t.debut > old(mint).last)
            &&& t.label@ == Seq::<char>::empty()
        }),
        (r.0.sender is Unbounded) <==> (channel is Unbounded),
        (r.0.sender is Bounded) <==> (channel is Bounded),
        (r.0.sender is Batched) <==> (channel is BatchedCondvar),
        (r.1.receiver is Batched) <==> (channel is BatchedCondvar),
{
    let token = IdentityToken::mint(mint);
    assembled(value, channel, Some(token))
}

/// Maps a proxy send's outcome: fatal exactly when the send failed — a dead
/// run-loop means the instance's state is gone, so the message is never
/// silently dropped.
pub fn send_outcome(sent: Result<(), CounterMsg>) -> (r: Result<(), RuntimeFault>)
    ensures
        (r is Ok) <==> (sent is Ok),
        r matches Err(f) ==> f == RuntimeFault::ProxySendClosed,
{
    match sent {
        Ok(()) => Ok(()),
        Err(_) => Err(RuntimeFault::ProxySendClosed),
    }
}

impl CounterLive {
    /// Sends one message into the instance's queue. Failure means the
    /// run-loop exited: fatal to the calling operation. A push into the
    /// batching buffer cannot fail, so there success is owed.
    fn send_msg(&self, msg: CounterMsg) -> (r: Result<(), RuntimeFault>)
        ensures
            r matches Err(f) ==> f == RuntimeFault::ProxySendClosed,
            self.sender is Batched ==> r == Ok::<(), RuntimeFault>(()),
    {
        match &self.sender {
            CounterSender::Unbounded(tx) => send_outcome(sender_send(tx, msg)),
            CounterSender::Bounded(tx) => send_outcome(sync_send(tx, msg)),
            CounterSender::Batched(q) => {
                queue_push(q, msg);
                Ok(())
            },
        }
    }

    /// Fire-and-forget: builds the message and sends it, returning at once
    /// with no confirmation of processing, whatever the run-loop's speed.
    /// On the batching topology the send cannot fail: success is owed.
    pub fn increment(&mut self) -> (r: Result<(), RuntimeFault>)
        ensures
            *final(self) == *old(self),
            r matches Err(f) ==> f == RuntimeFault::ProxySendClosed,
            old(self).sender is Batched ==> r == Ok::<(), RuntimeFault>(()),
    {
        self.send_msg(CounterMsg::Increment)
    }

    /// Round trip: builds a single-use reply channel, embeds the sender in
    /// the message, sends it, then blocks awaiting the reply. A missing
    /// reply means the run-loop died mid-call: fatal.
    pub fn add_number(&mut self, num: i64) -> (r: Result<i64, RuntimeFault>)
        ensures
            *final(self) == *old(self),
            r matches Err(f) ==> f == RuntimeFault::ProxySendClosed,
    {
        let (tx, rx) = reply_channel();
        self.send_msg(CounterMsg::AddNumber { input: num, output: tx })?;
        match reply_recv(rx) {
            Some(v) => Ok(v),
            None => Err(RuntimeFault::ProxySendClosed),
        }
    }

    /// Round trip without inputs: like `add_number`, reading the value back.
    pub fn get_value(&self) -> (r: Result<i64, RuntimeFault>)
        ensures
            r matches Err(f) ==> f == RuntimeFault::ProxySendClosed,
    {
        let (tx, rx) = reply_channel();
        self.send_msg(CounterMsg::GetValue { output: tx })?;
        match reply_recv(rx) {
            Some(v) => Ok(v),
            None => Err(RuntimeFault::ProxySendClosed),
        }
    }

    /// Bounded-topology probe: attempts the send without suspending, so a
    /// full buffer is reported instead of blocking the caller. The batching
    /// buffer is unbounded and always takes the message.
    pub fn try_increment(&self) -> (r: SendAttempt<()>)
        ensures
            self.sender is Bounded || !(r is Full),
            self.sender is Batched ==> r is Delivered,
    {
        match &self.sender {
            CounterSender::Unbounded(tx) => match sender_send(tx, CounterMsg::Increment) {
                Ok(()) => SendAttempt::Delivered,
                Err(_) => SendAttempt::Closed(()),
            },
            CounterSender::Bounded(tx) => match sync_try_send(tx, CounterMsg::Increment) {
                SendAttempt::Delivered => SendAttempt::Delivered,
                SendAttempt::Full(_) => SendAttempt::Full(()),
                SendAttempt::Closed(_) => SendAttempt::Closed(()),
            },
            CounterSender::Batched(q) => {
                queue_push(q, CounterMsg::Increment);
                SendAttempt::Delivered
            },
        }
    }

    /// The minted construction instant, when identity is on.
    pub fn inter_get_debut(&self) -> (r: Option<u128>)
        ensures
            (r is Some) <==> (self.identity is Some),
            self.identity matches Some(t) ==> r == Some(*t.debut),
    {
        match &self.identity {
            Some(t) => Some(t.debut_value()),
            None => None,
        }
    }

    /// How many live handles this instance has, this one included; zero
    /// without identity. Counted at some moment: concurrent clones and drops
    /// may change it at any time, but with identity on, this handle itself
    /// always counts.
    pub fn inter_get_count(&self) -> (r: usize)
        ensures
            self.identity is None ==> r == 0,
            self.identity is Some ==> r >= 1,
    {
        match &self.identity {
            Some(t) => t.live_count(),
            None => 0,
        }
    }

    /// Sets the diagnostic label; comparisons never look at it.
    pub fn inter_set_name(&mut self, name: String)
        ensures
            old(self).identity is Some ==> (final(self).identity matches Some(t) && t.label@
                == name@ && t.debut == old(self).identity->0.debut),
            old(self).identity is None ==> final(self).identity is None,
            final(self).sender == old(self).sender,
    {
        match &mut self.identity {
            Some(t) => {
                t.label = name;
            },
            None => {},
        }
    }

    /// The diagnostic label, empty without identity.
    pub fn inter_get_name(&self) -> (r: String)
        ensures
            self.identity matches Some(t) ==> r@ == t.label@,
            self.identity is None ==> r@ == Seq::<char>::empty(),
    {
        proof {
            reveal_strlit("");
        }
        match &self.identity {
            Some(t) => t.label.clone(),
            None => "".to_owned(),
        }
    }

    /// Identity equality: defined on the construction instant alone, so a
    /// handle equals its own clones whatever their labels; handles without
    /// identity compare unequal to everything.
    pub fn same_identity(&self, other: &CounterLive) -> (r: bool)
        ensures
            self.identity matches Some(a) ==> (other.identity matches Some(b) ==> r == (*a.debut
                == *b.debut)),
            (self.identity is None || other.identity is None) ==> r == false,
    {
        match (&self.identity, &other.identity) {
            (Some(a), Some(b)) => a.same_identity(b),
            _ => false,
        }
    }

    /// The descending identity order: an earlier-constructed handle outranks
    /// a later one. Labels are excluded.
    pub fn outranks(&self, other: &CounterLive) -> (r: bool)
        ensures
            self.identity matches Some(a) ==> (other.identity matches Some(b) ==> r == (*a.debut
                < *b.debut)),
            (self.identity is None || other.identity is None) ==> r == false,
    {
        match (&self.identity, &other.identity) {
            (Some(a), Some(b)) => a.outranks(b),
            _ => false,
        }
    }

    /// A shallow clone: duplicates the channel endpoints and, with identity,
    /// shares the same instant (counting as one more live handle). Instance
    /// state is never touched.
    pub fn duplicate(&self) -> (r: CounterLive)
        ensures
            (r.identity is Some) <==> (self.identity is Some),
            self.identity matches Some(t) ==> (r.identity matches Some(d) && d.debut == t.debut
                && d.label@ == t.label@),
            (r.sender is Unbounded) <==> (self.sender is Unbounded),
            (r.sender is Bounded) <==> (self.sender is Bounded),
            (r.sender is Batched) <==> (self.sender is Batched),
    {
        let sender = match &self.sender {
            CounterSender::Unbounded(tx) => CounterSender::Unbounded(sender_clone(tx)),
            CounterSender::Bounded(tx) => CounterSender::Bounded(sync_sender_clone(tx)),
            CounterSender::Batched(q) => CounterSender::Batched(queue_dup(q)),
        };
        let identity = match &self.identity {
            Some(t) => Some(t.duplicate()),
            None => None,
        };
        CounterLive { sender, identity }
    }
}

impl Clone for CounterLive {
    /// Cloning a handle duplicates only channel and identity references:
    /// same instant and label, same queue kind, instance state untouched.
    fn clone(&self) -> (r: CounterLive)
        ensures
            (r.identity is Some) <==> (self.identity is Some),
            self.identity matches Some(t) ==> (r.identity matches Some(d) && d.debut == t.debut
                && d.label@ == t.label@),
            (r.sender is Unbounded) <==> (self.sender is Unbounded),
            (r.sender is Bounded) <==> (self.sender is Bounded),
            (r.sender is Batched) <==> (self.sender is Batched),
    {
        self.duplicate()
    }
}

} // verus!
