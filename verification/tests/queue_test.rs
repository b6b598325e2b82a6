use oxicord::codec::DispatchEvent;
use oxicord::commands::{CommandQueue, GatewayCommand, PresenceStatus};
use oxicord::dispatcher::{EventDispatcher, SubscriberBuffer};
use oxicord::errors::GatewayError;

#[test]
fn test_queue_preserves_order() {
    let mut q = CommandQueue::new();
    q.enqueue(GatewayCommand::Identify {
        token: "t".to_string(),
        intents: 1,
    });
    q.enqueue(GatewayCommand::Heartbeat { ack_seq: None });
    assert_eq!(q.len(), 2);

    assert!(matches!(
        q.dequeue(),
        Some(GatewayCommand::Identify { .. })
    ));
    assert!(matches!(
        q.dequeue(),
        Some(GatewayCommand::Heartbeat { .. })
    ));
    assert!(q.dequeue().is_none());
}

#[test]
fn test_queue_coalesces_presence_updates_in_place() {
    let mut q = CommandQueue::new();
    q.enqueue(GatewayCommand::UpdatePresence {
        status: PresenceStatus::Online,
    });
    q.enqueue(GatewayCommand::Heartbeat { ack_seq: Some(1) });
    q.enqueue(GatewayCommand::UpdatePresence {
        status: PresenceStatus::Dnd,
    });

    // The newer presence replaced the queued one; nothing else moved.
    assert_eq!(q.len(), 2);
    match q.dequeue() {
        Some(GatewayCommand::UpdatePresence { status }) => {
            assert_eq!(status, PresenceStatus::Dnd)
        }
        _ => panic!("Expected presence update first"),
    }
    assert!(matches!(
        q.dequeue(),
        Some(GatewayCommand::Heartbeat { ack_seq: Some(1) })
    ));
}

#[test]
fn test_queue_never_coalesces_heartbeats() {
    let mut q = CommandQueue::new();
    q.enqueue(GatewayCommand::Heartbeat { ack_seq: Some(1) });
    q.enqueue(GatewayCommand::Heartbeat { ack_seq: Some(2) });
    assert_eq!(q.len(), 2);
}

#[test]
fn test_subscriber_buffer_bounded_overflow() {
    let mut b = SubscriberBuffer::new(2);
    b.offer(DispatchEvent::Resumed);
    b.offer(DispatchEvent::Other {
        name: "ONE".to_string(),
    });
    b.offer(DispatchEvent::Other {
        name: "DROPPED".to_string(),
    });

    let (events, overflowed) = b.drain();
    assert_eq!(events.len(), 2);
    assert!(overflowed);
    assert!(matches!(events[0], DispatchEvent::Resumed));
    match &events[1] {
        DispatchEvent::Other { name } => assert_eq!(name, "ONE"),
        _ => panic!("Expected the first buffered event to survive in order"),
    }

    let (events, overflowed) = b.drain();
    assert!(events.is_empty());
    assert!(!overflowed);
}

#[test]
fn test_dispatcher_broadcast_in_order() {
    let mut d = EventDispatcher::new();
    let fast = d.subscribe(8);
    let slow = d.subscribe(1);

    d.broadcast(&DispatchEvent::Other {
        name: "FIRST".to_string(),
    });
    d.broadcast(&DispatchEvent::Other {
        name: "SECOND".to_string(),
    });

    let (events, overflowed) = d.drain(fast);
    assert!(!overflowed);
    let names: Vec<String> = events
        .iter()
        .map(|e| match e {
            DispatchEvent::Other { name } => name.clone(),
            _ => panic!("Expected named events"),
        })
        .collect();
    assert_eq!(names, vec!["FIRST", "SECOND"]);

    let (events, overflowed) = d.drain(slow);
    assert_eq!(events.len(), 1);
    assert!(overflowed);
}

#[test]
fn test_only_authentication_is_fatal() {
    assert!(!GatewayError::Authentication.retriable());
    assert!(GatewayError::Transport.retriable());
    assert!(GatewayError::Decode.retriable());
    assert!(GatewayError::ProtocolViolation.retriable());
    assert!(GatewayError::ZombieConnection.retriable());
    assert_eq!(GatewayError::Decode.label(), "decode error");
}
