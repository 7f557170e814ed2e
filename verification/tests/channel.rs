use runner::channel::{subscriber_step, RecvEvent, SubscriberAction};
use tokio::sync::broadcast;
use tokio::sync::broadcast::error::TryRecvError;

#[test]
fn slow_subscriber_lags_then_resumes() {
    let (tx, mut rx) = broadcast::channel::<u64>(4);

    // the producer never waits on the slow subscriber: every send returns
    // at once, whether or not anyone has read
    for i in 0..10u64 {
        assert_eq!(tx.send(i).unwrap(), 1);
    }

    // the subscriber observes an explicit lagged signal for the overwritten
    // messages, then resumes with the oldest retained data
    match rx.try_recv() {
        Err(TryRecvError::Lagged(n)) => assert_eq!(n, 6),
        other => panic!("expected a lag signal, got {:?}", other),
    }
    for i in 6..10u64 {
        assert_eq!(rx.try_recv().unwrap(), i);
    }
    assert!(matches!(rx.try_recv(), Err(TryRecvError::Empty)));

    // fresh data still arrives after the lag
    tx.send(10).unwrap();
    assert_eq!(rx.try_recv().unwrap(), 10);
}

#[test]
fn send_without_subscribers_is_dropped_not_fatal() {
    let (tx, rx) = broadcast::channel::<u64>(4);
    drop(rx);
    assert!(tx.send(1).is_err());
    // a new subscriber revives the channel
    let mut rx2 = tx.subscribe();
    assert_eq!(tx.send(2).unwrap(), 1);
    assert_eq!(rx2.try_recv().unwrap(), 2);
}

#[test]
fn subscriber_loop_survives_lag_and_ends_on_close() {
    assert_eq!(
        subscriber_step(RecvEvent::Message("a line".to_string())),
        SubscriberAction::Forward("a line".to_string()),
    );
    assert_eq!(subscriber_step(RecvEvent::Lagged(6)), SubscriberAction::KeepGoing);
    assert_eq!(subscriber_step(RecvEvent::Closed), SubscriberAction::Stop);
}
