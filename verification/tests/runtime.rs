use interthread::batch::{decide, BatchDecision};
use interthread::channel::SendAttempt;
use interthread::counter::{
    counter_msg_label, counter_pair, counter_pair_with_identity, end_of_life_line, reply_outcome,
    respond, send_outcome, Counter, CounterMsg, CounterOp, CounterPlay, StepEvent,
};
use interthread::errors::RuntimeFault;
use interthread::identity::{DebutMint, IdentityToken};
use interthread::ir::Topology;

/// Drives a run-loop until it reports closed, panicking on any fault —
/// a fault is fatal to the run-loop's host unit.
fn drive_to_end(mut play: CounterPlay) -> Counter {
    loop {
        match play.step() {
            Ok(StepEvent::Closed) => {
                let line = end_of_life_line("Counter");
                assert_eq!(line, "Counter end of life ...");
                return play.actor;
            },
            Ok(_) => {},
            Err(f) => panic!("run-loop fault: {:?}", f),
        }
    }
}

#[test]
fn fire_and_forget_returns_without_a_consumer() {
    // No run-loop is driven at all: the sends still return at once.
    let (live, play) = counter_pair(5, &Topology::Unbounded);
    let mut a = live.clone();
    assert!(a.increment().is_ok());
    assert!(a.increment().is_ok());
    drop(a);
    drop(live);
    let actor = drive_to_end(play);
    assert_eq!(actor.value, 7);
}

#[test]
fn fire_and_forget_on_the_batching_queue() {
    let (live, play) = counter_pair(0, &Topology::BatchedCondvar);
    let mut a = live.clone();
    assert!(a.increment().is_ok());
    assert!(a.increment().is_ok());
    assert!(a.increment().is_ok());
    drop(a);
    drop(live);
    let actor = drive_to_end(play);
    assert_eq!(actor.value, 3);
}

#[test]
fn concurrent_callers_reach_eleven() {
    crossbeam_utils::thread::scope(|s| {
        let (live, play) = counter_pair(5, &Topology::Unbounded);
        let consumer = s.spawn(move |_| drive_to_end(play));
        let mut a = live.clone();
        let mut b = live.clone();
        let ha = s.spawn(move |_| {
            a.increment().unwrap();
        });
        let hb = s.spawn(move |_| {
            assert!(b.add_number(5).is_ok());
        });
        ha.join().unwrap();
        hb.join().unwrap();
        assert_eq!(live.get_value().unwrap(), 11);
        drop(live);
        let actor = consumer.join().unwrap();
        assert_eq!(actor.value, 11);
    })
    .unwrap();
}

#[test]
fn replies_equal_direct_calls() {
    crossbeam_utils::thread::scope(|s| {
        let (live, play) = counter_pair(5, &Topology::Unbounded);
        let consumer = s.spawn(move |_| drive_to_end(play));
        let mut handle = live.clone();
        // The same calls made directly on a plain instance.
        let mut plain = Counter::new(5);
        assert_eq!(handle.add_number(3).unwrap(), plain.add_number(3));
        assert_eq!(handle.get_value().unwrap(), plain.get_value());
        assert_eq!(handle.add_number(-8).unwrap(), plain.add_number(-8));
        drop(handle);
        drop(live);
        assert_eq!(consumer.join().unwrap().value, plain.get_value());
    })
    .unwrap();
}

#[test]
fn bounded_topology_round_trip() {
    crossbeam_utils::thread::scope(|s| {
        let (live, play) = counter_pair(1, &Topology::Bounded(2));
        let consumer = s.spawn(move |_| drive_to_end(play));
        let mut handle = live.clone();
        assert_eq!(handle.add_number(41).unwrap(), 42);
        drop(handle);
        drop(live);
        assert_eq!(consumer.join().unwrap().value, 42);
    })
    .unwrap();
}

#[test]
fn respond_applies_and_replies() {
    let mut actor = Counter::new(5);
    assert_eq!(respond(&mut actor, CounterOp::Increment), None);
    assert_eq!(actor.value, 6);
    assert_eq!(respond(&mut actor, CounterOp::AddNumber(5)), Some(11));
    assert_eq!(actor.value, 11);
    assert_eq!(respond(&mut actor, CounterOp::GetValue), Some(11));
    assert_eq!(actor.value, 11);
}

#[test]
fn interleaving_order_does_not_matter() {
    // One increment and one add(5), in both serialization orders.
    let mut first = Counter::new(5);
    respond(&mut first, CounterOp::Increment);
    respond(&mut first, CounterOp::AddNumber(5));
    let mut second = Counter::new(5);
    respond(&mut second, CounterOp::AddNumber(5));
    respond(&mut second, CounterOp::Increment);
    assert_eq!(first.value, 11);
    assert_eq!(second.value, 11);
}

#[test]
fn identity_orders_by_construction() {
    let mut mint = DebutMint::new();
    let (a, pa) = counter_pair_with_identity(0, &Topology::Unbounded, &mut mint);
    let (b, pb) = counter_pair_with_identity(0, &Topology::Unbounded, &mut mint);
    let (c, pc) = counter_pair_with_identity(0, &Topology::Unbounded, &mut mint);
    // Constructed earlier sorts above: a > b > c in the descending order.
    assert!(a.outranks(&b));
    assert!(b.outranks(&c));
    assert!(a.outranks(&c));
    assert!(!c.outranks(&a));
    assert!(!a.same_identity(&b));
    assert!(!b.same_identity(&c));

    // A clone equals its original even when the labels differ.
    let mut a2 = a.clone();
    a2.inter_set_name("Alice".to_string());
    let mut a3 = a.clone();
    a3.inter_set_name("Bob".to_string());
    assert!(a2.same_identity(&a3));
    assert!(a2.same_identity(&a));
    assert!(!a2.outranks(&a3));
    assert!(!a3.outranks(&a2));
    assert_eq!(a2.inter_get_name(), "Alice");
    assert_eq!(a3.inter_get_name(), "Bob");
    assert_eq!(a.inter_get_name(), "");

    // The instants themselves are strictly increasing.
    let da = a.inter_get_debut().unwrap();
    let db = b.inter_get_debut().unwrap();
    let dc = c.inter_get_debut().unwrap();
    assert!(da < db && db < dc);

    drop((a, a2, a3, b, c));
    drive_to_end(pa);
    drive_to_end(pb);
    drive_to_end(pc);
}

#[test]
fn minted_tokens_strictly_increase() {
    let mut mint = DebutMint::new();
    let t1 = IdentityToken::mint(&mut mint);
    let t2 = IdentityToken::mint(&mut mint);
    let t3 = IdentityToken::mint(&mut mint);
    assert!(t1.debut_value() < t2.debut_value());
    assert!(t2.debut_value() < t3.debut_value());
    assert!(t1.outranks(&t2));
    assert!(!t2.outranks(&t1));
    assert!(t1.same_identity(&t1.duplicate()));
}

#[test]
fn mint_cell_records_each_token() {
    let mut mint = DebutMint::new();
    assert_eq!(mint.last, 0);
    let t1 = mint.mint();
    assert_eq!(mint.last, t1);
    assert!(t1 > 0);
    let t2 = mint.mint();
    assert_eq!(mint.last, t2);
    assert!(t2 > t1);
}

#[test]
fn live_handle_counting() {
    let mut mint = DebutMint::new();
    let (live, play) = counter_pair_with_identity(0, &Topology::Unbounded, &mut mint);
    assert_eq!(live.inter_get_count(), 1);
    let c1 = live.clone();
    let c2 = live.clone();
    let c3 = live.clone();
    assert_eq!(live.inter_get_count(), 4);
    assert_eq!(c2.inter_get_count(), 4);
    drop(c1);
    assert_eq!(live.inter_get_count(), 3);
    drop((c2, c3));
    assert_eq!(live.inter_get_count(), 1);
    drop(live);
    drive_to_end(play);
}

#[test]
fn handle_without_identity() {
    let (live, play) = counter_pair(0, &Topology::Unbounded);
    assert_eq!(live.inter_get_debut(), None);
    assert_eq!(live.inter_get_count(), 0);
    assert_eq!(live.inter_get_name(), "");
    assert!(!live.same_identity(&live.clone()));
    drop(live);
    drive_to_end(play);
}

#[test]
fn batching_run_loop_exits_when_abandoned() {
    let (live, mut play) = counter_pair(0, &Topology::BatchedCondvar);
    let mut a = live.clone();
    a.increment().unwrap();
    a.increment().unwrap();
    // The whole buffer is drained as one batch.
    match play.step() {
        Ok(StepEvent::Processed(ops)) => assert_eq!(ops.len(), 2),
        other => panic!("expected a drained batch, got {:?}", other.is_ok()),
    }
    // Handles still live: the consumer waits rather than exits.
    match play.step() {
        Ok(StepEvent::Waited) => {},
        other => panic!("expected a parked consumer, got {:?}", other.is_ok()),
    }
    drop(a);
    drop(live);
    // Every handle is gone: the loop observably exits and the host emits the
    // terminal diagnostic.
    let actor = drive_to_end(play);
    assert_eq!(actor.value, 2);
}

#[test]
fn batching_termination_under_threads() {
    crossbeam_utils::thread::scope(|s| {
        let (live, play) = counter_pair(0, &Topology::BatchedCondvar);
        let consumer = s.spawn(move |_| drive_to_end(play));
        let mut a = live.clone();
        let ha = s.spawn(move |_| {
            for _ in 0..5 {
                a.increment().unwrap();
            }
        });
        ha.join().unwrap();
        drop(live);
        // The run-loop exits within bounded time once every handle is dropped.
        let actor = consumer.join().unwrap();
        assert_eq!(actor.value, 5);
    })
    .unwrap();
}

#[test]
fn batch_decision_table() {
    assert_eq!(decide(3, 1), BatchDecision::Drain);
    assert_eq!(decide(3, 5), BatchDecision::Drain);
    assert_eq!(decide(0, 2), BatchDecision::Wait);
    assert_eq!(decide(0, 1), BatchDecision::Exit);
    assert_eq!(decide(0, 0), BatchDecision::Exit);
}

#[test]
fn backpressure_under_the_bounded_topology() {
    let (live, mut play) = counter_pair(0, &Topology::Bounded(2));
    // The buffer takes its capacity without a consumer...
    assert!(matches!(live.try_increment(), SendAttempt::Delivered));
    assert!(matches!(live.try_increment(), SendAttempt::Delivered));
    // ...and the next send would suspend: the probe reports a full buffer.
    assert!(matches!(live.try_increment(), SendAttempt::Full(())));
    // Consuming one message makes room again.
    match play.step() {
        Ok(StepEvent::Processed(ops)) => assert_eq!(ops, vec![CounterOp::Increment]),
        _ => panic!("expected one processed message"),
    }
    assert!(matches!(live.try_increment(), SendAttempt::Delivered));
    drop(live);
    let actor = drive_to_end(play);
    assert_eq!(actor.value, 3);
}

#[test]
fn blocked_sender_resumes_when_consumed() {
    crossbeam_utils::thread::scope(|s| {
        let (live, play) = counter_pair(0, &Topology::Bounded(1));
        let mut a = live.clone();
        a.increment().unwrap();
        // This send blocks until the consumer drains one message.
        let hb = s.spawn(move |_| {
            a.increment().unwrap();
        });
        let consumer = s.spawn(move |_| drive_to_end(play));
        hb.join().unwrap();
        drop(live);
        assert_eq!(consumer.join().unwrap().value, 2);
    })
    .unwrap();
}

#[test]
fn outcome_mappers_are_exact() {
    // A failed send is mapped to the fatal fault, and only a failed one:
    // a swallowed failure or an invented one would break these.
    assert_eq!(reply_outcome(Ok(())), Ok(()));
    assert_eq!(reply_outcome(Err(7)), Err(RuntimeFault::DispatchReplyClosed));
    assert_eq!(send_outcome(Ok(())), Ok(()));
    assert_eq!(
        send_outcome(Err(CounterMsg::Increment)),
        Err(RuntimeFault::ProxySendClosed)
    );
}

#[test]
fn batching_buffer_always_takes_the_message() {
    let (live, play) = counter_pair(0, &Topology::BatchedCondvar);
    // The batching buffer is unbounded: a send into it cannot fail.
    assert!(matches!(live.try_increment(), SendAttempt::Delivered));
    assert!(matches!(live.try_increment(), SendAttempt::Delivered));
    let mut a = live.clone();
    assert_eq!(a.increment(), Ok(()));
    drop(a);
    drop(live);
    assert_eq!(drive_to_end(play).value, 3);
}

#[test]
fn message_labels_hide_payloads() {
    assert_eq!(counter_msg_label(&CounterMsg::Increment), "Increment");
    let (tx, _rx) = oneshot::channel();
    assert_eq!(counter_msg_label(&CounterMsg::AddNumber { input: 7, output: tx }), "AddNumber");
    let (tx, _rx) = oneshot::channel();
    assert_eq!(counter_msg_label(&CounterMsg::GetValue { output: tx }), "GetValue");
}

#[test]
fn dead_run_loop_is_fatal_to_the_caller() {
    let (live, play) = counter_pair(0, &Topology::Unbounded);
    // The run-loop ends because the only other handle is dropped later; here
    // it is simply never started and its consumer end is dropped.
    drop(play);
    let mut a = live.clone();
    assert_eq!(a.increment(), Err(RuntimeFault::ProxySendClosed));
    assert_eq!(a.add_number(1), Err(RuntimeFault::ProxySendClosed));
    assert_eq!(a.get_value(), Err(RuntimeFault::ProxySendClosed));
}

#[test]
fn overflowing_method_is_fatal_to_the_run_loop() {
    let (live, mut play) = counter_pair(i64::MAX, &Topology::Unbounded);
    let mut a = live.clone();
    a.increment().unwrap();
    assert!(matches!(play.step(), Err(RuntimeFault::MethodPanicked)));
    assert_eq!(play.actor.value, i64::MAX);
}
