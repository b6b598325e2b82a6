//! The connection state machine: owns the socket lifecycle, drives
//! handshake, resumption, heartbeating, reconnection and backoff.
//!
//! The machine is a pure transition function from (state, event, time) to
//! (state, actions).  The surrounding tasks perform the actions -- opening
//! and closing the transport, sending encoded commands, delivering events
//! -- and feed the resulting observations back in as events.

use vstd::prelude::*;
use crate::backoff::{backoff_ms, spec_backoff_ms};
use crate::codec::{DispatchEvent, GatewayFrame};
use crate::commands::GatewayCommand;
use crate::errors::GatewayError;
use crate::heartbeat::{sat_add, sat_add_u64, spec_hb_fire, spec_hb_start, HeartbeatSignal,
    HeartbeatState};
use crate::session::SessionState;

verus! {

/// `a + b` on attempt counters, stopping at the largest `u32` value.
pub open spec fn sat_add_u32(a: u32, b: u32) -> u32 {
    if a + b > u32::MAX {
        u32::MAX
    } else {
        (a + b) as u32
    }
}

/// Executable twin of [`sat_add_u32`].
pub fn sat_add32(a: u32, b: u32) -> (r: u32)
    ensures
        r == sat_add_u32(a, b),
{
    if a <= u32::MAX - b {
        a + b
    } else {
        u32::MAX
    }
}

/// Construction-time configuration, supplied by the owning application.
#[derive(Debug, Clone)]
pub struct GatewayConfig {
    /// Authentication token presented on identify and resume.
    pub token: String,
    /// Intents bitmask declared on identify.
    pub intents: u64,
    /// URL to connect to when no resume URL is held.
    pub default_url: String,
    /// First reconnect backoff interval, in milliseconds.
    pub base_backoff_ms: u64,
    /// Largest reconnect backoff interval, in milliseconds.
    pub max_backoff_ms: u64,
    /// How long a connection must stay up for the attempt counter to
    /// reset, in milliseconds.
    pub stability_window_ms: u64,
    /// One-time random heartbeat offset drawn by the application, in
    /// milliseconds; avoids thundering-herd reconnects.
    pub heartbeat_jitter_ms: u64,
}

impl GatewayConfig {
    /// The backoff range is sane.
    pub open spec fn wf(self) -> bool {
        1 <= self.base_backoff_ms <= self.max_backoff_ms
    }
}

/// The connection lifecycle.  Exactly one instance exists per client;
/// transitions are the state machine's sole responsibility.
#[derive(Debug, Clone, Copy, PartialEq, Eq, Structural)]
pub enum ConnState {
    /// No transport, no attempt in progress.
    Disconnected,
    /// Opening the transport.
    Connecting,
    /// Transport open, waiting for the hello frame.
    AwaitingHello,
    /// Identify sent, waiting for the ready dispatch.
    Identifying,
    /// Resume sent, waiting for the replay to finish.
    Resuming,
    /// Live session.
    Connected,
    /// Waiting out the backoff before reconnecting.
    Reconnecting { attempt: u32, backoff_until_ms: u64 },
    /// Terminal: explicit external stop.
    ShuttingDown,
    /// Terminal: authentication was rejected; never retried.
    Failed,
}

/// An observation fed into the machine.
#[derive(Debug, Clone)]
pub enum GatewayEvent {
    /// The owner asks the client to start (or the backoff task asks it to
    /// reconnect).
    StartRequested,
    /// The transport finished opening.
    TransportOpened,
    /// The transport failed to open, read or write.
    TransportFailed,
    /// One frame arrived and decoded.
    FrameReceived(GatewayFrame),
    /// One frame arrived and could not be decoded; it is dropped.
    FrameUndecodable,
    /// No hello arrived within the bounded wait.
    HelloTimedOut,
    /// The heartbeat timer fired.
    HeartbeatDue,
    /// The backoff wait may be over.
    BackoffElapsed,
    /// The server rejected the identify credentials.
    AuthRejected,
    /// The owner asks the client to stop.
    StopRequested,
}

/// An effect the surrounding tasks must perform.
#[derive(Debug, Clone)]
pub enum GatewayAction {
    /// Open the transport to this URL.
    OpenTransport { url: String },
    /// Encode and send this command.
    SendCommand(GatewayCommand),
    /// Close the transport.
    CloseTransport,
    /// Deliver this event to the subscribers.
    EmitEvent(DispatchEvent),
    /// Report a terminal error to the owning application.
    SurfaceError(GatewayError),
}

/// The gateway client: configuration, connection state, session state,
/// heartbeat bookkeeping and the reconnect counters.
#[derive(Debug, Clone)]
pub struct GatewayClient {
    pub config: GatewayConfig,
    pub state: ConnState,
    pub session: SessionState,
    pub heartbeat: HeartbeatState,
    /// Reconnect attempts since the last stable connection.
    pub attempt: u32,
    /// When the current connection was established, if one is live.
    pub connected_at_ms: Option<u64>,
    /// Total reconnect cycles entered; an observable metric.
    pub reconnect_count: u64,
}

/// The URL the next connection attempt uses: the resume URL when one is
/// held, the configured default otherwise.
pub open spec fn spec_connect_url(c: GatewayClient) -> String {
    match c.session.resume_url {
        Some(u) => u,
        None => c.config.default_url,
    }
}

/// The attempt counter the next reconnect cycle starts from: reset to
/// zero when the connection stayed up through the stability window.
pub open spec fn spec_reset_attempt(c: GatewayClient, now_ms: u64) -> u32 {
    match c.connected_at_ms {
        Some(t) => if t <= now_ms && now_ms - t >= c.config.stability_window_ms {
            0
        } else {
            c.attempt
        },
        None => c.attempt,
    }
}

/// The client after entering a reconnect cycle at `now_ms`: the heartbeat
/// supervisor halts, the attempt counter (reset first if the connection
/// was stable) grows by one, and the machine waits out one backoff
/// interval computed from the pre-increment counter.
pub open spec fn spec_begin_reconnect(c: GatewayClient, now_ms: u64) -> GatewayClient {
    let a0 = spec_reset_attempt(c, now_ms);
    let wait = spec_backoff_ms(c.config.base_backoff_ms, c.config.max_backoff_ms, a0);
    GatewayClient {
        state: ConnState::Reconnecting {
            attempt: sat_add_u32(a0, 1),
            backoff_until_ms: sat_add_u64(now_ms, wait),
        },
        heartbeat: HeartbeatState { running: false, ..c.heartbeat },
        attempt: sat_add_u32(a0, 1),
        connected_at_ms: None,
        reconnect_count: sat_add_u64(c.reconnect_count, 1),
        ..c
    }
}

/// The client after a dispatch frame `(seq, event)` arrived in state
/// `Identifying`, `Resuming` or `Connected`: the sequence number is
/// applied, a ready dispatch captures the session and connects, a resumed
/// dispatch connects, and everything else leaves the state alone.
pub open spec fn spec_apply_dispatch(
    c: GatewayClient,
    seq: u64,
    event: DispatchEvent,
    now_ms: u64,
) -> GatewayClient {
    let s2 = SessionState {
        sequence: crate::session::spec_observe(c.session.sequence, seq),
        ..c.session
    };
    match event {
        DispatchEvent::Ready { session_id, resume_url } => GatewayClient {
            state: ConnState::Connected,
            session: SessionState { session_id: Some(session_id), resume_url, ..s2 },
            connected_at_ms: Some(now_ms),
            ..c
        },
        DispatchEvent::Resumed => GatewayClient {
            state: ConnState::Connected,
            session: s2,
            connected_at_ms: Some(now_ms),
            ..c
        },
        _ => GatewayClient { session: s2, ..c },
    }
}

/// The machine is in one of the states where inbound frames matter.
pub open spec fn spec_in_session(s: ConnState) -> bool {
    s is Identifying || s is Resuming || s is Connected
}

/// The complete transition relation of the client: what one event does to
/// the state, and which actions the surrounding tasks must perform.
pub open spec fn spec_step(c: GatewayClient, ev: GatewayEvent, now_ms: u64) -> (
    GatewayClient,
    Seq<GatewayAction>,
) {
    if c.state is ShuttingDown || c.state is Failed {
        (c, Seq::empty())
    } else {
        match ev {
            GatewayEvent::StopRequested => (
                GatewayClient {
                    state: ConnState::ShuttingDown,
                    heartbeat: HeartbeatState { running: false, ..c.heartbeat },
                    connected_at_ms: None,
                    ..c
                },
                seq![GatewayAction::CloseTransport],
            ),
            GatewayEvent::StartRequested => if c.state is Disconnected {
                (
                    GatewayClient { state: ConnState::Connecting, ..c },
                    seq![GatewayAction::OpenTransport { url: spec_connect_url(c) }],
                )
            } else {
                (c, Seq::empty())
            },
            GatewayEvent::TransportOpened => if c.state is Connecting {
                (GatewayClient { state: ConnState::AwaitingHello, ..c }, Seq::empty())
            } else {
                (c, Seq::empty())
            },
            GatewayEvent::TransportFailed => if c.state is Connecting || c.state is AwaitingHello
                || spec_in_session(c.state) {
                (spec_begin_reconnect(c, now_ms), seq![GatewayAction::CloseTransport])
            } else {
                (c, Seq::empty())
            },
            GatewayEvent::HelloTimedOut => if c.state is AwaitingHello {
                (spec_begin_reconnect(c, now_ms), seq![GatewayAction::CloseTransport])
            } else {
                (c, Seq::empty())
            },
            GatewayEvent::FrameUndecodable => (c, Seq::empty()),
            GatewayEvent::HeartbeatDue => if c.heartbeat.running {
                let fired = spec_hb_fire(c.heartbeat, now_ms);
                if fired.1 is Zombie {
                    (
                        spec_begin_reconnect(GatewayClient { heartbeat: fired.0, ..c }, now_ms),
                        seq![GatewayAction::CloseTransport],
                    )
                } else {
                    (
                        GatewayClient { heartbeat: fired.0, ..c },
                        seq![
                            GatewayAction::SendCommand(
                                GatewayCommand::Heartbeat { ack_seq: c.session.sequence },
                            )
                        ],
                    )
                }
            } else {
                (c, Seq::empty())
            },
            GatewayEvent::BackoffElapsed => match c.state {
                ConnState::Reconnecting { attempt, backoff_until_ms } => if now_ms
                    >= backoff_until_ms {
                    (
                        GatewayClient { state: ConnState::Connecting, ..c },
                        seq![GatewayAction::OpenTransport { url: spec_connect_url(c) }],
                    )
                } else {
                    (c, Seq::empty())
                },
                _ => (c, Seq::empty()),
            },
            GatewayEvent::AuthRejected => if c.state is Identifying {
                (
                    GatewayClient {
                        state: ConnState::Failed,
                        heartbeat: HeartbeatState { running: false, ..c.heartbeat },
                        connected_at_ms: None,
                        ..c
                    },
                    seq![
                        GatewayAction::CloseTransport,
                        GatewayAction::SurfaceError(GatewayError::Authentication),
                    ],
                )
            } else {
                (c, Seq::empty())
            },
            GatewayEvent::FrameReceived(frame) => match frame {
                GatewayFrame::Hello { heartbeat_interval_ms } => if c.state is AwaitingHello {
                    let h = spec_hb_start(
                        heartbeat_interval_ms,
                        c.config.heartbeat_jitter_ms,
                        now_ms,
                    );
                    if c.session.spec_can_resume() {
                        (
                            GatewayClient { state: ConnState::Resuming, heartbeat: h, ..c },
                            seq![
                                GatewayAction::SendCommand(
                                    GatewayCommand::Resume {
                                        token: c.session.identify_token,
                                        session_id: c.session.session_id.unwrap(),
                                        seq: c.session.sequence.unwrap(),
                                    },
                                )
                            ],
                        )
                    } else {
                        (
                            GatewayClient { state: ConnState::Identifying, heartbeat: h, ..c },
                            seq![
                                GatewayAction::SendCommand(
                                    GatewayCommand::Identify {
                                        token: c.session.identify_token,
                                        intents: c.session.intents,
                                    },
                                )
                            ],
                        )
                    }
                } else {
                    (c, Seq::empty())
                },
                GatewayFrame::HeartbeatAck => (
                    GatewayClient {
                        heartbeat: HeartbeatState { last_ack_received: true, ..c.heartbeat },
                        ..c
                    },
                    Seq::empty(),
                ),
                GatewayFrame::Reconnect => if c.state is AwaitingHello || spec_in_session(
                    c.state,
                ) {
                    (spec_begin_reconnect(c, now_ms), seq![GatewayAction::CloseTransport])
                } else {
                    (c, Seq::empty())
                },
                GatewayFrame::InvalidSession { resumable } => if spec_in_session(c.state) {
                    if resumable {
                        (spec_begin_reconnect(c, now_ms), seq![GatewayAction::CloseTransport])
                    } else {
                        (
                            spec_begin_reconnect(
                                GatewayClient {
                                    session: SessionState {
                                        session_id: None,
                                        sequence: None,
                                        resume_url: None,
                                        ..c.session
                                    },
                                    ..c
                                },
                                now_ms,
                            ),
                            seq![GatewayAction::CloseTransport],
                        )
                    }
                } else {
                    (c, Seq::empty())
                },
                GatewayFrame::Dispatch { seq, event } => if spec_in_session(c.state) {
                    (
                        spec_apply_dispatch(c, seq, event, now_ms),
                        seq![GatewayAction::EmitEvent(event)],
                    )
                } else {
                    (c, Seq::empty())
                },
            },
        }
    }
}

impl GatewayClient {
    /// A client ready to be started.
    pub fn new(config: GatewayConfig) -> (c: GatewayClient)
        ensures
            c.state is Disconnected,
            c.session.session_id is None,
            c.session.sequence is None,
            c.session.resume_url is None,
            c.session.identify_token@ == config.token@,
            c.session.intents == config.intents,
            c.config == config,
            c.attempt == 0,
            c.connected_at_ms is None,
            c.reconnect_count == 0,
            !c.heartbeat.running,
    {
        let session = SessionState::new(config.token.as_str(), config.intents);
        GatewayClient {
            config,
            state: ConnState::Disconnected,
            session,
            heartbeat: HeartbeatState::idle(),
            attempt: 0,
            connected_at_ms: None,
            reconnect_count: 0,
        }
    }

    /// Enters a reconnect cycle.
    fn begin_reconnect(&mut self, now_ms: u64) -> (acts: Vec<GatewayAction>)
        ensures
            (*final(self), acts@) == (
                spec_begin_reconnect(*old(self), now_ms),
                seq![GatewayAction::CloseTransport],
            ),
    {
        let a0: u32 = match self.connected_at_ms {
            Some(t) => {
                if t <= now_ms && now_ms - t >= self.config.stability_window_ms {
                    0
                } else {
                    self.attempt
                }
            },
            None => self.attempt,
        };
        let wait = backoff_ms(self.config.base_backoff_ms, self.config.max_backoff_ms, a0);
        let a1 = sat_add32(a0, 1);
        self.state = ConnState::Reconnecting {
            attempt: a1,
            backoff_until_ms: sat_add(now_ms, wait),
        };
        self.heartbeat.stop();
        self.attempt = a1;
        self.connected_at_ms = None;
        self.reconnect_count = sat_add(self.reconnect_count, 1);
        let mut acts: Vec<GatewayAction> = Vec::new();
        acts.push(GatewayAction::CloseTransport);
        proof {
            assert(acts@ =~= seq![GatewayAction::CloseTransport]);
        }
        acts
    }

    /// Feeds one event into the machine at time `now_ms` and returns the
    /// actions the surrounding tasks must perform, exactly as the
    /// transition relation [`spec_step`] prescribes.
    pub fn handle_event(&mut self, ev: GatewayEvent, now_ms: u64) -> (acts: Vec<GatewayAction>)
        ensures
            (*final(self), acts@) == spec_step(*old(self), ev, now_ms),
    {
        let mut acts: Vec<GatewayAction> = Vec::new();
        match self.state {
            ConnState::ShuttingDown | ConnState::Failed => {
                proof {
                    assert(acts@ =~= Seq::<GatewayAction>::empty());
                }
                return acts;
            },
            _ => {},
        }
        match ev {
            GatewayEvent::StopRequested => {
                self.state = ConnState::ShuttingDown;
                self.heartbeat.stop();
                self.connected_at_ms = None;
                acts.push(GatewayAction::CloseTransport);
                proof {
                    assert(acts@ =~= seq![GatewayAction::CloseTransport]);
                }
                acts
            },
            GatewayEvent::StartRequested => {
                if matches!(self.state, ConnState::Disconnected) {
                    self.state = ConnState::Connecting;
                    acts.push(GatewayAction::OpenTransport { url: self.connect_url() });
                    proof {
                        assert(acts@ =~= seq![
                            GatewayAction::OpenTransport { url: spec_connect_url(*old(self)) },
                        ]);
                    }
                }
                acts
            },
            GatewayEvent::TransportOpened => {
                if matches!(self.state, ConnState::Connecting) {
                    self.state = ConnState::AwaitingHello;
                }
                acts
            },
            GatewayEvent::TransportFailed => {
                if self.in_recoverable_connection() {
                    self.begin_reconnect(now_ms)
                } else {
                    acts
                }
            },
            GatewayEvent::HelloTimedOut => {
                if matches!(self.state, ConnState::AwaitingHello) {
                    self.begin_reconnect(now_ms)
                } else {
                    acts
                }
            },
            GatewayEvent::FrameUndecodable => acts,
            GatewayEvent::HeartbeatDue => {
                if self.heartbeat.running {
                    let ghost seq0 = self.session.sequence;
                    let sig = self.heartbeat.fire(now_ms);
                    match sig {
                        HeartbeatSignal::Zombie => self.begin_reconnect(now_ms),
                        HeartbeatSignal::SendHeartbeat => {
                            acts.push(
                                GatewayAction::SendCommand(
                                    GatewayCommand::Heartbeat { ack_seq: self.session.sequence },
                                ),
                            );
                            proof {
                                assert(acts@ =~= seq![
                                    GatewayAction::SendCommand(
                                        GatewayCommand::Heartbeat { ack_seq: seq0 },
                                    ),
                                ]);
                            }
                            acts
                        },
                    }
                } else {
                    acts
                }
            },
            GatewayEvent::BackoffElapsed => {
                let due = match self.state {
                    ConnState::Reconnecting { backoff_until_ms, .. } => now_ms >= backoff_until_ms,
                    _ => false,
                };
                if due {
                    self.state = ConnState::Connecting;
                    acts.push(GatewayAction::OpenTransport { url: self.connect_url() });
                    proof {
                        assert(acts@ =~= seq![
                            GatewayAction::OpenTransport { url: spec_connect_url(*old(self)) },
                        ]);
                    }
                }
                acts
            },
            GatewayEvent::AuthRejected => {
                if matches!(self.state, ConnState::Identifying) {
                    self.state = ConnState::Failed;
                    self.heartbeat.stop();
                    self.connected_at_ms = None;
                    acts.push(GatewayAction::CloseTransport);
                    acts.push(GatewayAction::SurfaceError(GatewayError::Authentication));
                    proof {
                        assert(acts@ =~= seq![
                            GatewayAction::CloseTransport,
                            GatewayAction::SurfaceError(GatewayError::Authentication),
                        ]);
                    }
                }
                acts
            },
            GatewayEvent::FrameReceived(frame) => match frame {
                GatewayFrame::Hello { heartbeat_interval_ms } => {
                    if matches!(self.state, ConnState::AwaitingHello) {
                        self.heartbeat = HeartbeatState::start(
                            heartbeat_interval_ms,
                            self.config.heartbeat_jitter_ms,
                            now_ms,
                        );
                        if self.session.can_resume() {
                            self.state = ConnState::Resuming;
                            let sid = match &self.session.session_id {
                                Some(s) => s.clone(),
                                None => String::new(),
                            };
                            let seq = match self.session.sequence {
                                Some(s) => s,
                                None => 0,
                            };
                            acts.push(
                                GatewayAction::SendCommand(
                                    GatewayCommand::Resume {
                                        token: self.session.identify_token.clone(),
                                        session_id: sid,
                                        seq,
                                    },
                                ),
                            );
                            proof {
                                assert(acts@ =~= seq![
                                    GatewayAction::SendCommand(
                                        GatewayCommand::Resume {
                                            token: old(self).session.identify_token,
                                            session_id: old(self).session.session_id.unwrap(),
                                            seq: old(self).session.sequence.unwrap(),
                                        },
                                    ),
                                ]);
                            }
                        } else {
                            self.state = ConnState::Identifying;
                            acts.push(
                                GatewayAction::SendCommand(
                                    GatewayCommand::Identify {
                                        token: self.session.identify_token.clone(),
                                        intents: self.session.intents,
                                    },
                                ),
                            );
                            proof {
                                assert(acts@ =~= seq![
                                    GatewayAction::SendCommand(
                                        GatewayCommand::Identify {
                                            token: old(self).session.identify_token,
                                            intents: old(self).session.intents,
                                        },
                                    ),
                                ]);
                            }
                        }
                    }
                    acts
                },
                GatewayFrame::HeartbeatAck => {
                    self.heartbeat.on_ack();
                    acts
                },
                GatewayFrame::Reconnect => {
                    if matches!(self.state, ConnState::AwaitingHello) || self.in_session() {
                        self.begin_reconnect(now_ms)
                    } else {
                        acts
                    }
                },
                GatewayFrame::InvalidSession { resumable } => {
                    if self.in_session() {
                        if !resumable {
                            self.session.clear_session();
                        }
                        self.begin_reconnect(now_ms)
                    } else {
                        acts
                    }
                },
                GatewayFrame::Dispatch { seq, event } => {
                    if self.in_session() {
                        self.session.observe_sequence(seq);
                        match &event {
                            DispatchEvent::Ready { session_id, resume_url } => {
                                let ru = match resume_url {
                                    Some(u) => Some(u.clone()),
                                    None => None,
                                };
                                self.session.adopt_session(session_id.clone(), ru);
                                self.state = ConnState::Connected;
                                self.connected_at_ms = Some(now_ms);
                            },
                            DispatchEvent::Resumed => {
                                self.state = ConnState::Connected;
                                self.connected_at_ms = Some(now_ms);
                            },
                            _ => {},
                        }
                        let ghost ev0 = event;
                        acts.push(GatewayAction::EmitEvent(event));
                        proof {
                            assert(acts@ =~= seq![GatewayAction::EmitEvent(ev0)]);
                        }
                    }
                    acts
                },
            },
        }
    }

    /// The URL the next connection attempt uses.
    fn connect_url(&self) -> (r: String)
        ensures
            r == spec_connect_url(*self),
    {
        match &self.session.resume_url {
            Some(u) => u.clone(),
            None => self.config.default_url.clone(),
        }
    }

    fn in_session(&self) -> (r: bool)
        ensures
            r == spec_in_session(self.state),
    {
        matches!(
            self.state,
            ConnState::Identifying | ConnState::Resuming | ConnState::Connected
        )
    }

    fn in_recoverable_connection(&self) -> (r: bool)
        ensures
            r == (self.state is Connecting || self.state is AwaitingHello || spec_in_session(
                self.state,
            )),
    {
        matches!(
            self.state,
            ConnState::Connecting | ConnState::AwaitingHello | ConnState::Identifying
                | ConnState::Resuming | ConnState::Connected
        )
    }
}

} // verus!
