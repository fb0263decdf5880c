use oblivious_state_machine::feed::Feed;
use oblivious_state_machine::task::Poll;
use std::task::Waker;
use tokio::sync::mpsc;

fn next(feed: &mut Feed<u32>) -> Option<u32> {
    match feed.next(Waker::noop()) {
        Poll::Ready(Some(message)) => Some(message),
        Poll::Ready(None) => panic!("The channel is open"),
        Poll::Pending => None,
    }
}

#[test]
fn messages_come_from_the_channel_in_order() {
    let (tx, rx) = mpsc::unbounded_channel();
    let mut feed = Feed::new(rx);
    assert_eq!(next(&mut feed), None);
    tx.send(1).unwrap();
    tx.send(2).unwrap();
    assert_eq!(next(&mut feed), Some(1));
    assert_eq!(next(&mut feed), Some(2));
    assert_eq!(next(&mut feed), None);
}

#[test]
fn delayed_messages_come_first_after_a_refresh() {
    let (tx, rx) = mpsc::unbounded_channel();
    let mut feed = Feed::new(rx);
    for message in [1, 2, 3, 4] {
        tx.send(message).unwrap();
    }
    for _ in 0..3 {
        let message = next(&mut feed).unwrap();
        feed.delay(message);
    }
    // Delayed messages do not come back on their own.
    assert_eq!(next(&mut feed), Some(4));
    assert_eq!(next(&mut feed), None);
    tx.send(5).unwrap();
    feed.refresh();
    feed.refresh();
    assert_eq!(next(&mut feed), Some(1));
    // What is delayed again goes in front of what is still queued.
    feed.delay(9);
    feed.delay(8);
    feed.refresh();
    assert_eq!(next(&mut feed), Some(9));
    assert_eq!(next(&mut feed), Some(8));
    assert_eq!(next(&mut feed), Some(2));
    assert_eq!(next(&mut feed), Some(3));
    assert_eq!(next(&mut feed), Some(5));
    assert_eq!(next(&mut feed), None);
}

#[test]
fn delaying_everything_undoes_the_draws() {
    let (tx, rx) = mpsc::unbounded_channel();
    let mut feed = Feed::new(rx);
    for message in 0..6 {
        tx.send(message).unwrap();
    }
    for count in [4, 2, 0, 3] {
        for expected in 0..count {
            assert_eq!(next(&mut feed), Some(expected));
            feed.delay(expected);
        }
        feed.refresh();
    }
    for expected in 0..6 {
        assert_eq!(next(&mut feed), Some(expected));
    }
    assert_eq!(next(&mut feed), None);
}

#[test]
fn closed_channel_ends_the_feed() {
    let (tx, rx) = mpsc::unbounded_channel();
    let mut feed = Feed::new(rx);
    tx.send(1).unwrap();
    drop(tx);
    let message = next(&mut feed).unwrap();
    feed.delay(message);
    assert!(matches!(feed.next(Waker::noop()), Poll::Ready(None)));
    feed.refresh();
    assert_eq!(next(&mut feed), Some(1));
    assert!(matches!(feed.next(Waker::noop()), Poll::Ready(None)));
}
