use oxicord::backoff::backoff_ms;
use oxicord::codec::{DispatchEvent, GatewayFrame};
use oxicord::commands::GatewayCommand;
use oxicord::errors::GatewayError;
use oxicord::heartbeat::{HeartbeatSignal, HeartbeatState};
use oxicord::machine::{ConnState, GatewayAction, GatewayClient, GatewayConfig, GatewayEvent};

fn config() -> GatewayConfig {
    GatewayConfig {
        token: "SECRET-REDACTED".to_string(),
        intents: 513,
        default_url: "wss://gateway.example".to_string(),
        base_backoff_ms: 1000,
        max_backoff_ms: 8000,
        stability_window_ms: 60_000,
        heartbeat_jitter_ms: 250,
    }
}

fn ready_frame() -> GatewayFrame {
    GatewayFrame::Dispatch {
        seq: 1,
        event: DispatchEvent::Ready {
            session_id: "sess".to_string(),
            resume_url: Some("wss://resume.example".to_string()),
        },
    }
}

fn connect(client: &mut GatewayClient, now: u64) {
    client.handle_event(GatewayEvent::StartRequested, now);
    client.handle_event(GatewayEvent::TransportOpened, now);
    client.handle_event(
        GatewayEvent::FrameReceived(GatewayFrame::Hello {
            heartbeat_interval_ms: 41250,
        }),
        now,
    );
    client.handle_event(GatewayEvent::FrameReceived(ready_frame()), now);
}

#[test]
fn test_handshake_reaches_connected() {
    let mut client = GatewayClient::new(config());
    let acts = client.handle_event(GatewayEvent::StartRequested, 0);
    assert!(matches!(client.state, ConnState::Connecting));
    match &acts[0] {
        GatewayAction::OpenTransport { url } => assert_eq!(url, "wss://gateway.example"),
        _ => panic!("Expected transport open"),
    }

    client.handle_event(GatewayEvent::TransportOpened, 1);
    assert!(matches!(client.state, ConnState::AwaitingHello));

    let acts = client.handle_event(
        GatewayEvent::FrameReceived(GatewayFrame::Hello {
            heartbeat_interval_ms: 41250,
        }),
        2,
    );
    assert!(matches!(client.state, ConnState::Identifying));
    assert!(client.heartbeat.running);
    assert_eq!(client.heartbeat.next_due_ms, 2 + 41250 - 250);
    match &acts[0] {
        GatewayAction::SendCommand(GatewayCommand::Identify { token, intents }) => {
            assert_eq!(token, "SECRET-REDACTED");
            assert_eq!(*intents, 513);
        }
        _ => panic!("Expected identify"),
    }

    let acts = client.handle_event(GatewayEvent::FrameReceived(ready_frame()), 3);
    assert!(matches!(client.state, ConnState::Connected));
    assert_eq!(client.session.session_id.as_deref(), Some("sess"));
    assert_eq!(client.session.sequence, Some(1));
    assert!(matches!(&acts[0], GatewayAction::EmitEvent(_)));
}

#[test]
fn test_sequence_tracks_last_observed() {
    let mut client = GatewayClient::new(config());
    connect(&mut client, 0);
    for seq in [2u64, 5, 9, 10] {
        client.handle_event(
            GatewayEvent::FrameReceived(GatewayFrame::Dispatch {
                seq,
                event: DispatchEvent::Other {
                    name: "PRESENCE_SYNC".to_string(),
                },
            }),
            1,
        );
    }
    assert_eq!(client.session.sequence, Some(10));
}

#[test]
fn test_sequence_never_decreases() {
    let mut client = GatewayClient::new(config());
    connect(&mut client, 0);
    client.handle_event(
        GatewayEvent::FrameReceived(GatewayFrame::Dispatch {
            seq: 20,
            event: DispatchEvent::Resumed,
        }),
        1,
    );
    client.handle_event(
        GatewayEvent::FrameReceived(GatewayFrame::Dispatch {
            seq: 3,
            event: DispatchEvent::Resumed,
        }),
        2,
    );
    assert_eq!(client.session.sequence, Some(20));
}

#[test]
fn test_resume_attempted_iff_session_held() {
    // No session: identify.
    let mut fresh = GatewayClient::new(config());
    fresh.handle_event(GatewayEvent::StartRequested, 0);
    fresh.handle_event(GatewayEvent::TransportOpened, 0);
    let acts = fresh.handle_event(
        GatewayEvent::FrameReceived(GatewayFrame::Hello {
            heartbeat_interval_ms: 1000,
        }),
        0,
    );
    assert!(matches!(fresh.state, ConnState::Identifying));
    assert!(matches!(
        &acts[0],
        GatewayAction::SendCommand(GatewayCommand::Identify { .. })
    ));

    // Session id and sequence held: resume.
    let mut held = GatewayClient::new(config());
    connect(&mut held, 0);
    held.handle_event(GatewayEvent::TransportFailed, 1);
    held.handle_event(GatewayEvent::BackoffElapsed, 10_000);
    assert!(matches!(held.state, ConnState::Connecting));
    held.handle_event(GatewayEvent::TransportOpened, 10_001);
    let acts = held.handle_event(
        GatewayEvent::FrameReceived(GatewayFrame::Hello {
            heartbeat_interval_ms: 1000,
        }),
        10_002,
    );
    assert!(matches!(held.state, ConnState::Resuming));
    match &acts[0] {
        GatewayAction::SendCommand(GatewayCommand::Resume {
            session_id, seq, ..
        }) => {
            assert_eq!(session_id, "sess");
            assert_eq!(*seq, 1);
        }
        _ => panic!("Expected resume"),
    }
}

#[test]
fn test_resume_uses_resume_url() {
    let mut client = GatewayClient::new(config());
    connect(&mut client, 0);
    client.handle_event(GatewayEvent::TransportFailed, 1);
    let acts = client.handle_event(GatewayEvent::BackoffElapsed, 10_000);
    match &acts[0] {
        GatewayAction::OpenTransport { url } => assert_eq!(url, "wss://resume.example"),
        _ => panic!("Expected transport open"),
    }
}

#[test]
fn test_missed_ack_triggers_exactly_one_reconnect() {
    let mut client = GatewayClient::new(config());
    connect(&mut client, 0);

    // First firing: ack pending flag is set, a heartbeat goes out.
    let acts = client.handle_event(GatewayEvent::HeartbeatDue, 41_000);
    assert!(matches!(
        &acts[0],
        GatewayAction::SendCommand(GatewayCommand::Heartbeat { ack_seq: Some(1) })
    ));
    assert!(!client.heartbeat.last_ack_received);
    assert!(matches!(client.state, ConnState::Connected));

    // Second firing without an ack: zombie, one reconnect cycle.
    let before = client.reconnect_count;
    let acts = client.handle_event(GatewayEvent::HeartbeatDue, 82_250);
    assert!(matches!(&acts[0], GatewayAction::CloseTransport));
    assert!(matches!(client.state, ConnState::Reconnecting { .. }));
    assert_eq!(client.reconnect_count, before + 1);
    assert!(!client.heartbeat.running);

    // A third firing changes nothing: the supervisor is halted.
    let state_before = client.state;
    let acts = client.handle_event(GatewayEvent::HeartbeatDue, 123_000);
    assert!(acts.is_empty());
    assert_eq!(client.state, state_before);
    assert_eq!(client.reconnect_count, before + 1);
}

#[test]
fn test_ack_then_fire_sends_next_heartbeat() {
    let mut client = GatewayClient::new(config());
    connect(&mut client, 0);
    client.handle_event(GatewayEvent::HeartbeatDue, 41_000);
    client.handle_event(GatewayEvent::FrameReceived(GatewayFrame::HeartbeatAck), 41_100);
    assert!(client.heartbeat.last_ack_received);
    let acts = client.handle_event(GatewayEvent::HeartbeatDue, 82_250);
    assert!(matches!(
        &acts[0],
        GatewayAction::SendCommand(GatewayCommand::Heartbeat { .. })
    ));
    assert!(matches!(client.state, ConnState::Connected));
}

#[test]
fn test_decode_error_keeps_connection_and_ack_registers() {
    let mut client = GatewayClient::new(config());
    connect(&mut client, 0);
    client.handle_event(GatewayEvent::HeartbeatDue, 41_000);
    assert!(!client.heartbeat.last_ack_received);

    let acts = client.handle_event(GatewayEvent::FrameUndecodable, 41_500);
    assert!(acts.is_empty());
    assert!(matches!(client.state, ConnState::Connected));

    client.handle_event(GatewayEvent::FrameReceived(GatewayFrame::HeartbeatAck), 41_600);
    assert!(matches!(client.state, ConnState::Connected));
    assert!(client.heartbeat.last_ack_received);
}

#[test]
fn test_auth_rejection_is_terminal() {
    let mut client = GatewayClient::new(config());
    client.handle_event(GatewayEvent::StartRequested, 0);
    client.handle_event(GatewayEvent::TransportOpened, 0);
    client.handle_event(
        GatewayEvent::FrameReceived(GatewayFrame::Hello {
            heartbeat_interval_ms: 1000,
        }),
        0,
    );
    assert!(matches!(client.state, ConnState::Identifying));

    let acts = client.handle_event(GatewayEvent::AuthRejected, 1);
    assert!(matches!(client.state, ConnState::Failed));
    assert!(matches!(
        &acts[1],
        GatewayAction::SurfaceError(GatewayError::Authentication)
    ));

    // No event ever moves a failed client again, and nothing is retried.
    for now in [2u64, 100, 10_000] {
        let acts = client.handle_event(GatewayEvent::StartRequested, now);
        assert!(acts.is_empty());
        assert!(matches!(client.state, ConnState::Failed));
        let acts = client.handle_event(GatewayEvent::BackoffElapsed, now);
        assert!(acts.is_empty());
    }
}

#[test]
fn test_backoff_nondecreasing_up_to_cap() {
    let mut prev = 0u64;
    for attempt in 0u32..8 {
        let wait = backoff_ms(1000, 8000, attempt);
        assert!(wait >= prev);
        assert!(wait <= 8000);
        prev = wait;
    }
    assert_eq!(backoff_ms(1000, 8000, 0), 1000);
    assert_eq!(backoff_ms(1000, 8000, 1), 2000);
    assert_eq!(backoff_ms(1000, 8000, 2), 4000);
    assert_eq!(backoff_ms(1000, 8000, 3), 8000);
    assert_eq!(backoff_ms(1000, 8000, 4), 8000);
}

#[test]
fn test_backoff_grows_per_attempt_and_resets_after_stability() {
    let mut client = GatewayClient::new(config());

    // Two failed cycles in a row: the waits grow.
    client.handle_event(GatewayEvent::StartRequested, 0);
    client.handle_event(GatewayEvent::TransportFailed, 0);
    let first_until = match client.state {
        ConnState::Reconnecting {
            backoff_until_ms, ..
        } => backoff_until_ms,
        _ => panic!("Expected reconnecting"),
    };
    assert_eq!(first_until, 1000);

    client.handle_event(GatewayEvent::BackoffElapsed, 1000);
    client.handle_event(GatewayEvent::TransportFailed, 1000);
    let second_until = match client.state {
        ConnState::Reconnecting {
            attempt,
            backoff_until_ms,
        } => {
            assert_eq!(attempt, 2);
            backoff_until_ms
        }
        _ => panic!("Expected reconnecting"),
    };
    assert_eq!(second_until, 1000 + 2000);

    // A connection that outlives the stability window resets the counter.
    client.handle_event(GatewayEvent::BackoffElapsed, 3000);
    client.handle_event(GatewayEvent::TransportOpened, 3000);
    client.handle_event(
        GatewayEvent::FrameReceived(GatewayFrame::Hello {
            heartbeat_interval_ms: 1000,
        }),
        3000,
    );
    client.handle_event(GatewayEvent::FrameReceived(ready_frame()), 3000);
    assert!(matches!(client.state, ConnState::Connected));

    let now = 3000 + 60_000;
    client.handle_event(GatewayEvent::TransportFailed, now);
    match client.state {
        ConnState::Reconnecting {
            attempt,
            backoff_until_ms,
        } => {
            assert_eq!(attempt, 1);
            assert_eq!(backoff_until_ms, now + 1000);
        }
        _ => panic!("Expected reconnecting"),
    }
}

#[test]
fn test_invalid_session_nonresumable_clears_session() {
    let mut client = GatewayClient::new(config());
    connect(&mut client, 0);
    assert!(client.session.session_id.is_some());
    client.handle_event(
        GatewayEvent::FrameReceived(GatewayFrame::InvalidSession { resumable: false }),
        1,
    );
    assert!(matches!(client.state, ConnState::Reconnecting { .. }));
    assert!(client.session.session_id.is_none());
    assert!(client.session.sequence.is_none());

    let mut keep = GatewayClient::new(config());
    connect(&mut keep, 0);
    keep.handle_event(
        GatewayEvent::FrameReceived(GatewayFrame::InvalidSession { resumable: true }),
        1,
    );
    assert!(keep.session.session_id.is_some());
}

#[test]
fn test_stop_is_terminal() {
    let mut client = GatewayClient::new(config());
    connect(&mut client, 0);
    let acts = client.handle_event(GatewayEvent::StopRequested, 5);
    assert!(matches!(&acts[0], GatewayAction::CloseTransport));
    assert!(matches!(client.state, ConnState::ShuttingDown));
    let acts = client.handle_event(GatewayEvent::StartRequested, 6);
    assert!(acts.is_empty());
    assert!(matches!(client.state, ConnState::ShuttingDown));
}

#[test]
fn test_heartbeat_state_transitions() {
    let mut hb = HeartbeatState::start(1000, 100, 0);
    assert!(hb.running);
    assert!(hb.last_ack_received);
    assert_eq!(hb.next_due_ms, 900);

    assert_eq!(hb.fire(900), HeartbeatSignal::SendHeartbeat);
    assert!(!hb.last_ack_received);
    assert_eq!(hb.next_due_ms, 1900);

    hb.on_ack();
    assert!(hb.last_ack_received);
    assert_eq!(hb.fire(1900), HeartbeatSignal::SendHeartbeat);
    assert_eq!(hb.fire(2900), HeartbeatSignal::Zombie);
    assert!(!hb.running);
}

#[test]
fn test_hello_timeout_reconnects() {
    let mut client = GatewayClient::new(config());
    client.handle_event(GatewayEvent::StartRequested, 0);
    client.handle_event(GatewayEvent::TransportOpened, 0);
    client.handle_event(GatewayEvent::HelloTimedOut, 500);
    assert!(matches!(client.state, ConnState::Reconnecting { .. }));
}
