use worker_host::channel::{Inbound, Polled, SendError, WorkerChannels};
use worker_host::event::{WorkerError, WorkerEvent};

/// One turn of a worker that echoes its input.
fn echo_one(channels: &mut WorkerChannels) -> bool {
    match channels.next_message() {
        Inbound::Message(data) => {
            channels.post_event(WorkerEvent::Message(data)).unwrap();
            true
        }
        _ => false,
    }
}

#[test]
fn fresh_channels_are_pending_and_empty() {
    let mut channels = WorkerChannels::new();
    assert_eq!(channels.poll_event(), Polled::Pending);
    assert_eq!(channels.next_message(), Inbound::Empty);
    assert!(!channels.is_terminated());
}

#[test]
fn echo_returns_the_same_bytes() {
    let mut channels = WorkerChannels::new();
    assert_eq!(channels.post_message(vec![0, 1, 2, 254, 255]), Ok(()));
    assert!(echo_one(&mut channels));
    assert_eq!(
        channels.poll_event(),
        Polled::Event(WorkerEvent::Message(vec![0, 1, 2, 254, 255]))
    );
    assert_eq!(channels.poll_event(), Polled::Pending);
}

#[test]
fn echo_preserves_the_order_of_posts() {
    let mut channels = WorkerChannels::new();
    let posts: Vec<Vec<u8>> = (0..20u8).map(|i| vec![i, i.wrapping_mul(7)]).collect();
    for post in &posts {
        channels.post_message(post.clone()).unwrap();
    }
    while echo_one(&mut channels) {}
    for post in &posts {
        assert_eq!(channels.poll_event(), Polled::Event(WorkerEvent::Message(post.clone())));
    }
    assert_eq!(channels.poll_event(), Polled::Pending);
}

#[test]
fn echo_preserves_order_when_posts_and_polls_interleave() {
    let mut channels = WorkerChannels::new();
    channels.post_message(vec![1]).unwrap();
    channels.post_message(vec![2]).unwrap();
    assert!(echo_one(&mut channels));
    channels.post_message(vec![3]).unwrap();
    assert_eq!(channels.poll_event(), Polled::Event(WorkerEvent::Message(vec![1])));
    assert_eq!(channels.poll_event(), Polled::Pending);
    assert!(echo_one(&mut channels));
    assert!(echo_one(&mut channels));
    assert!(!echo_one(&mut channels));
    assert_eq!(channels.poll_event(), Polled::Event(WorkerEvent::Message(vec![2])));
    assert_eq!(channels.poll_event(), Polled::Event(WorkerEvent::Message(vec![3])));
}

#[test]
fn messages_reach_the_worker_in_order() {
    let mut channels = WorkerChannels::new();
    channels.post_message(vec![1]).unwrap();
    channels.post_message(vec![2]).unwrap();
    assert_eq!(channels.next_message(), Inbound::Message(vec![1]));
    assert_eq!(channels.next_message(), Inbound::Message(vec![2]));
    assert_eq!(channels.next_message(), Inbound::Empty);
}

#[test]
fn terminate_stops_delivery() {
    let mut channels = WorkerChannels::new();
    channels.post_message(vec![1]).unwrap();
    channels.terminate();
    assert!(channels.is_terminated());
    assert_eq!(channels.next_message(), Inbound::Closed);
    assert_eq!(channels.next_message(), Inbound::Closed);
    assert_eq!(channels.post_message(vec![2]), Err(SendError::ChannelClosed));
    assert_eq!(channels.poll_event(), Polled::Pending);
}

#[test]
fn terminate_twice_is_terminate_once() {
    let mut channels = WorkerChannels::new();
    channels.terminate();
    channels.terminate();
    assert!(channels.is_terminated());
    assert_eq!(channels.post_message(vec![1]), Err(SendError::ChannelClosed));
}

#[test]
fn closed_sender_lets_the_worker_drain_and_then_stop() {
    let mut channels = WorkerChannels::new();
    channels.post_message(vec![9]).unwrap();
    channels.close_sender();
    assert_eq!(channels.post_message(vec![10]), Err(SendError::ChannelClosed));
    assert_eq!(channels.next_message(), Inbound::Message(vec![9]));
    assert_eq!(channels.next_message(), Inbound::Closed);
}

#[test]
fn events_queued_before_the_worker_left_are_still_found() {
    let mut channels = WorkerChannels::new();
    let error = WorkerError::Opaque { message: "dead".to_string() };
    channels.post_event(WorkerEvent::Message(vec![1])).unwrap();
    channels.post_event(WorkerEvent::TerminalError(error.clone())).unwrap();
    channels.worker_exit();
    assert_eq!(channels.poll_event(), Polled::Event(WorkerEvent::Message(vec![1])));
    assert_eq!(channels.poll_event(), Polled::Event(WorkerEvent::TerminalError(error)));
    assert_eq!(channels.poll_event(), Polled::Closed);
    assert_eq!(channels.poll_event(), Polled::Closed);
}

#[test]
fn dead_worker_accepts_nothing() {
    let mut channels = WorkerChannels::new();
    channels.worker_exit();
    assert_eq!(channels.post_message(vec![1]), Err(SendError::ChannelClosed));
    assert_eq!(
        channels.post_event(WorkerEvent::Message(vec![1])),
        Err(SendError::ChannelClosed)
    );
    assert_eq!(channels.poll_event(), Polled::Closed);
}

#[test]
fn natural_completion_closes_the_channel() {
    let mut channels = WorkerChannels::new();
    assert_eq!(channels.poll_event(), Polled::Pending);
    channels.worker_exit();
    assert_eq!(channels.poll_event(), Polled::Closed);
}

#[test]
fn failed_worker_reports_one_terminal_error_and_no_message() {
    let mut channels = WorkerChannels::new();
    let error = WorkerError::Opaque { message: "Cannot resolve module".to_string() };
    channels.post_event(WorkerEvent::TerminalError(error.clone())).unwrap();
    channels.worker_exit();
    assert_eq!(channels.poll_event(), Polled::Event(WorkerEvent::TerminalError(error)));
    assert_eq!(channels.poll_event(), Polled::Closed);
}
