use mdr::reload::{
    ForwardAction, ForwardEvent, ForwardPhase, Forwarder, Reception, BUS_CAPACITY, RELOAD_FRAME,
};
use tokio::sync::broadcast;
use tokio::sync::broadcast::error::TryRecvError;

/// What a subscription holds right now, in the library's terms.
fn poll(rx: &mut broadcast::Receiver<()>) -> Option<Reception> {
    match rx.try_recv() {
        Ok(()) => Some(Reception::Notice),
        Err(TryRecvError::Lagged(lost)) => Some(Reception::Lagged(lost)),
        Err(TryRecvError::Closed) => Some(Reception::Closed),
        Err(TryRecvError::Empty) => None,
    }
}

/// Runs a connection's loop over all that its subscription holds, with a
/// socket that takes every frame, and counts the frames.
fn drain(forwarder: &mut Forwarder, rx: &mut broadcast::Receiver<()>) -> usize {
    let mut frames = 0;
    while let Some(reception) = poll(rx) {
        match forwarder.step(ForwardEvent::Received(reception)) {
            ForwardAction::SendReload => {
                frames += 1;
                forwarder.step(ForwardEvent::Sent { delivered: true });
            }
            ForwardAction::Close => break,
            _ => {}
        }
    }
    frames
}

#[test]
fn reload_frame_and_capacity_are_as_documented() {
    assert_eq!(RELOAD_FRAME, "reload");
    assert_eq!(BUS_CAPACITY, 32);
}

#[test]
fn notice_is_forwarded_as_one_frame() {
    let mut forwarder = Forwarder::new();
    assert!(!forwarder.is_closed());
    assert_eq!(
        forwarder.step(ForwardEvent::Received(Reception::Notice)),
        ForwardAction::SendReload
    );
    assert_eq!(forwarder.phase, ForwardPhase::Sending);
    assert_eq!(forwarder.step(ForwardEvent::Sent { delivered: true }), ForwardAction::Listen);
    assert_eq!(forwarder.phase, ForwardPhase::Listening);
}

#[test]
fn lag_skips_forward_and_keeps_the_connection() {
    let mut forwarder = Forwarder::new();
    for lost in [1, 8, u64::MAX] {
        assert_eq!(
            forwarder.step(ForwardEvent::Received(Reception::Lagged(lost))),
            ForwardAction::Listen
        );
        assert!(!forwarder.is_closed());
    }
}

#[test]
fn closed_bus_closes_the_connection() {
    let mut forwarder = Forwarder::new();
    assert_eq!(forwarder.step(ForwardEvent::Received(Reception::Closed)), ForwardAction::Close);
    assert!(forwarder.is_closed());
    assert_eq!(forwarder.step(ForwardEvent::Received(Reception::Notice)), ForwardAction::Close);
}

#[test]
fn failed_write_closes_the_connection() {
    let mut forwarder = Forwarder::new();
    forwarder.step(ForwardEvent::Received(Reception::Notice));
    assert_eq!(forwarder.step(ForwardEvent::Sent { delivered: false }), ForwardAction::Close);
    assert!(forwarder.is_closed());
}

#[test]
fn event_out_of_turn_changes_nothing() {
    let mut forwarder = Forwarder::new();
    assert_eq!(forwarder.step(ForwardEvent::Sent { delivered: false }), ForwardAction::OutOfTurn);
    assert_eq!(forwarder.phase, ForwardPhase::Listening);
    forwarder.step(ForwardEvent::Received(Reception::Notice));
    assert_eq!(
        forwarder.step(ForwardEvent::Received(Reception::Closed)),
        ForwardAction::OutOfTurn
    );
    assert_eq!(forwarder.phase, ForwardPhase::Sending);
}

#[test]
fn publishing_to_nobody_is_lost_and_not_replayed_to_a_later_subscriber() {
    let (tx, first) = broadcast::channel::<()>(BUS_CAPACITY);
    drop(first);
    // Nobody listens: the notice goes nowhere, and the publisher carries on.
    assert!(tx.send(()).is_err());
    let mut rx = tx.subscribe();
    let mut forwarder = Forwarder::new();
    assert_eq!(drain(&mut forwarder, &mut rx), 0);
    // What is published from now on does arrive.
    assert_eq!(tx.send(()).ok(), Some(1));
    assert_eq!(drain(&mut forwarder, &mut rx), 1);
    assert!(!forwarder.is_closed());
}

#[test]
fn lagging_subscriber_loses_the_backlog_not_the_connection() {
    let (tx, mut rx) = broadcast::channel::<()>(BUS_CAPACITY);
    let published = BUS_CAPACITY + 8;
    for _ in 0..published {
        tx.send(()).unwrap();
    }
    assert_eq!(poll(&mut rx), Some(Reception::Lagged(8)));
    let mut forwarder = Forwarder::new();
    assert_eq!(
        forwarder.step(ForwardEvent::Received(Reception::Lagged(8))),
        ForwardAction::Listen
    );
    assert_eq!(drain(&mut forwarder, &mut rx), BUS_CAPACITY);
    assert!(!forwarder.is_closed());
}

#[test]
fn subscriber_outlives_the_bus_and_then_closes() {
    let (tx, mut rx) = broadcast::channel::<()>(BUS_CAPACITY);
    tx.send(()).unwrap();
    drop(tx);
    let mut forwarder = Forwarder::new();
    // The notice published before the bus went is still delivered.
    assert_eq!(drain(&mut forwarder, &mut rx), 1);
    assert!(forwarder.is_closed());
}

#[test]
fn every_subscriber_gets_every_notice() {
    let (tx, mut a) = broadcast::channel::<()>(BUS_CAPACITY);
    let mut b = tx.subscribe();
    let mut c = tx.subscribe();
    assert_eq!(tx.send(()).ok(), Some(3));
    assert_eq!(tx.send(()).ok(), Some(3));
    for rx in [&mut a, &mut b, &mut c] {
        let mut forwarder = Forwarder::new();
        assert_eq!(drain(&mut forwarder, rx), 2);
    }
}
