use bchannel::{channel, Receiver, Sender};

// Sending five and six and closing yields exactly five, six, nothing, and a
// latched closed state.
#[test]
fn close_scenario() {
    let (mut sx, mut rx): (Sender<u32, String>, Receiver<u32, String>) = channel();

    sx.send(5).unwrap();
    sx.send(6).unwrap();
    sx.close();

    assert_eq!(rx.recv(), Some(5));
    assert_eq!(rx.recv(), Some(6));
    assert_eq!(rx.recv(), None);
    assert!(rx.is_closed());
    // closedness is latched and querying it has no side effect
    assert!(rx.is_closed());
    assert_eq!(rx.recv(), None);
    assert!(rx.is_closed());
    assert!(!rx.has_error());
}

// Sending five and terminating with an error yields five, then nothing, and
// the error is there to be taken.
#[test]
fn error_scenario() {
    let (mut sx, mut rx): (Sender<u32, String>, Receiver<u32, String>) = channel();

    sx.send(5).unwrap();
    sx.error("x".to_string()).unwrap();

    assert_eq!(rx.recv(), Some(5));
    assert_eq!(rx.recv(), None);
    assert!(rx.is_closed());
    assert!(rx.has_error());
    assert_eq!(rx.take_error(), Some("x".to_string()));
}

// Taking the error is one-shot: the second take finds nothing, the channel
// stays closed, and has_error no longer reports a value.
#[test]
fn take_error_one_shot() {
    let (sx, mut rx): (Sender<u32, String>, Receiver<u32, String>) = channel();

    sx.error("boom".to_string()).unwrap();

    assert_eq!(rx.recv(), None);
    assert!(rx.has_error());
    assert_eq!(rx.take_error(), Some("boom".to_string()));
    assert_eq!(rx.take_error(), None);
    assert!(!rx.has_error());
    assert!(rx.is_closed());
}

// A drained non-blocking iterator leaves a still-open receiver behind; a
// fresh iterator over it picks up newly sent values.
#[test]
fn nonblocking_iterator_restart() {
    let (mut sx, rx): (Sender<u32, ()>, Receiver<u32, ()>) = channel();

    sx.send(1).unwrap();
    sx.send(2).unwrap();

    let mut it = rx.iter();
    let mut xs: Vec<u32> = Vec::new();
    while let Some(v) = it.next() {
        xs.push(v);
    }
    assert_eq!(xs, vec![1, 2]);

    let rx = it.into_receiver();
    assert!(!rx.is_closed());

    sx.send(3).unwrap();
    sx.send(4).unwrap();

    let mut it = rx.iter();
    let mut ys: Vec<u32> = Vec::new();
    while let Some(v) = it.next() {
        ys.push(v);
    }
    assert_eq!(ys, vec![3, 4]);
}

// A send against a gone consumer hands the value back and latches the local
// closed cache; the cache alone never claims closure beforehand.
#[test]
fn send_returns_value_when_consumer_gone() {
    let (mut sx, rx): (Sender<u32, ()>, Receiver<u32, ()>) = channel();

    assert!(!sx.is_closed());
    drop(rx);
    assert!(!sx.is_closed()); // purely passive: no probe, so no knowledge yet
    assert_eq!(sx.send(7), Err(7));
    assert!(sx.is_closed());
}

// Terminating with an error against a gone consumer hands the error back.
#[test]
fn error_returns_value_when_consumer_gone() {
    let (sx, rx): (Sender<u32, String>, Receiver<u32, String>) = channel();

    drop(rx);
    assert_eq!(sx.error("lost".to_string()), Err("lost".to_string()));
}

// send_all delivers everything while the consumer lives.
#[test]
fn send_all_delivers_in_order() {
    let (mut sx, mut rx): (Sender<u32, ()>, Receiver<u32, ()>) = channel();

    sx.send_all(vec![10, 20, 30]).unwrap();
    sx.close();

    assert_eq!(rx.recv(), Some(10));
    assert_eq!(rx.recv(), Some(20));
    assert_eq!(rx.recv(), Some(30));
    assert_eq!(rx.recv(), None);
}

// send_all stops at the first failure and hands back the failed value with
// everything after it untouched.
#[test]
fn send_all_returns_failure_and_remainder() {
    let (mut sx, rx): (Sender<u32, ()>, Receiver<u32, ()>) = channel();

    drop(rx);
    assert_eq!(sx.send_all(vec![1, 2, 3]), Err((1, vec![2, 3])));
    assert!(sx.is_closed());
}

// Two clones of one sender feed the same queue: the receiver observes every
// value from both, none lost, none duplicated, none corrupted.
#[test]
fn cloned_senders_share_the_queue() {
    let (sx, mut rx): (Sender<u64, ()>, Receiver<u64, ()>) = channel();

    let mut a = sx.clone();
    let mut b = sx.clone();
    sx.close();

    for i in 0..100u64 {
        a.send(i).unwrap();
        b.send(1000 + i).unwrap();
    }
    a.close();
    b.close();

    let mut got: Vec<u64> = Vec::new();
    while let Some(v) = rx.recv_block() {
        got.push(v);
    }
    assert_eq!(got.len(), 200);
    let mut expected: Vec<u64> = Vec::new();
    for i in 0..100u64 {
        expected.push(i);
        expected.push(1000 + i);
    }
    got.sort();
    expected.sort();
    assert_eq!(got, expected);
    assert!(rx.is_closed());
    assert!(!rx.has_error());
}

// A clone copies the closed cache as a starting value only; afterwards each
// clone tracks its own failures.
#[test]
fn clone_copies_closed_cache() {
    let (mut sx, rx): (Sender<u32, ()>, Receiver<u32, ()>) = channel();

    let fresh = sx.clone();
    assert!(!fresh.is_closed());

    drop(rx);
    assert_eq!(sx.send(1), Err(1));
    assert!(sx.is_closed());
    let tainted = sx.clone();
    assert!(tainted.is_closed());
    assert!(!fresh.is_closed()); // the earlier clone saw no failure of its own
}

// A blocking receive yields queued values and then reports closure rather
// than hanging, once every sender is gone.
#[test]
fn recv_block_terminates_on_close() {
    let (mut sx, mut rx): (Sender<u32, ()>, Receiver<u32, ()>) = channel();

    sx.send(11).unwrap();
    sx.close();

    assert_eq!(rx.recv_block(), Some(11));
    assert_eq!(rx.recv_block(), None);
    assert!(rx.is_closed());
}

// An empty but open channel yields nothing from a non-blocking receive
// without closing anything.
#[test]
fn recv_on_empty_open_channel_is_none_and_stays_open() {
    let (mut sx, mut rx): (Sender<u32, ()>, Receiver<u32, ()>) = channel();

    assert_eq!(rx.recv(), None);
    assert!(!rx.is_closed());

    sx.send(42).unwrap();
    assert_eq!(rx.recv(), Some(42));
}

// The owning blocking iterator also drains and terminates once the channel
// is terminated by an error; the error stays behind on the receiver.
#[test]
fn into_blocking_iter_drains_then_stops() {
    let (mut sx, rx): (Sender<u32, String>, Receiver<u32, String>) = channel();

    sx.send(1).unwrap();
    sx.send(2).unwrap();
    sx.error("end".to_string()).unwrap();

    let mut it = rx.into_blocking_iter();
    let mut xs: Vec<u32> = Vec::new();
    while let Some(v) = it.next() {
        xs.push(v);
    }
    assert_eq!(xs, vec![1, 2]);

    let mut rx = it.into_receiver();
    assert!(rx.is_closed());
    assert!(rx.has_error());
    assert_eq!(rx.take_error(), Some("end".to_string()));
}

// The halves can be unwrapped: the receiver hands out its transport end
// together with a not-yet-taken error, and the sender its producer end.
#[test]
fn into_inner_carries_the_error() {
    let (sx, mut rx): (Sender<u32, String>, Receiver<u32, String>) = channel();

    sx.error("late".to_string()).unwrap();
    assert_eq!(rx.recv(), None);
    let (_raw, err) = rx.into_inner();
    assert_eq!(err, Some("late".to_string()));

    let (sx2, rx2): (Sender<u32, String>, Receiver<u32, String>) = channel();
    let raw_tx = sx2.into_inner();
    let mut rx2 = rx2;
    raw_tx.send(bchannel::CommMsg::Message(9)).unwrap();
    assert_eq!(rx2.recv(), Some(9));
}

// A channel closed before anything is sent yields nothing at once.
#[test]
fn immediate_close_yields_nothing() {
    let (sx, mut rx): (Sender<u32, ()>, Receiver<u32, ()>) = channel();

    sx.close();
    assert_eq!(rx.recv(), None);
    assert!(rx.is_closed());
    assert!(!rx.has_error());
    assert_eq!(rx.take_error(), None);
}

// Sending an empty sequence succeeds and delivers nothing, even when the
// consumer is gone: there is no first failure to stop at.
#[test]
fn send_all_of_nothing_is_ok() {
    let (mut sx, rx): (Sender<u32, ()>, Receiver<u32, ()>) = channel();

    drop(rx);
    assert_eq!(sx.send_all(Vec::new()), Ok(()));
    assert!(!sx.is_closed());
}
