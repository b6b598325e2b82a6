//! The behavioural laws of the connection state machine, proved from the
//! transition relation [`crate::machine::spec_step`].

use vstd::prelude::*;
use crate::backoff::{lemma_backoff_bounds, lemma_backoff_monotone, spec_backoff_ms};
use crate::codec::{DispatchEvent, GatewayFrame};
use crate::commands::GatewayCommand;
use crate::errors::GatewayError;
use crate::heartbeat::sat_add_u64;
use crate::machine::{sat_add_u32, spec_begin_reconnect, spec_reset_attempt, spec_step, ConnState,
    GatewayAction, GatewayClient, GatewayEvent};
use crate::session::spec_observe;

verus! {

/// The client after a whole series of dispatch frames, fed in arrival
/// order through the transition relation.
pub open spec fn spec_feed_dispatches(
    c: GatewayClient,
    frames: Seq<(u64, DispatchEvent)>,
    now_ms: u64,
) -> GatewayClient
    decreases frames.len(),
{
    if frames.len() == 0 {
        c
    } else {
        let next = spec_step(
            c,
            GatewayEvent::FrameReceived(
                GatewayFrame::Dispatch { seq: frames[0].0, event: frames[0].1 },
            ),
            now_ms,
        ).0;
        spec_feed_dispatches(next, frames.drop_first(), now_ms)
    }
}

/// For every series of inbound dispatch frames with strictly increasing
/// sequence numbers (continuing from the stored position, if any), the
/// connection stays `Connected` and the stored sequence number equals the
/// last one observed.
pub proof fn lemma_dispatch_stream_tracks_last(
    c: GatewayClient,
    frames: Seq<(u64, DispatchEvent)>,
    now_ms: u64,
)
    requires
        c.state is Connected,
        frames.len() > 0,
        forall|i: int, j: int|
            #![trigger frames[i], frames[j]]
            0 <= i < j < frames.len() ==> frames[i].0 < frames[j].0,
        c.session.sequence matches Some(p) ==> p <= frames[0].0,
    ensures
        spec_feed_dispatches(c, frames, now_ms).state is Connected,
        spec_feed_dispatches(c, frames, now_ms).session.sequence == Some(
            frames[frames.len() - 1].0,
        ),
    decreases frames.len(),
{
    let c1 = spec_step(
        c,
        GatewayEvent::FrameReceived(
            GatewayFrame::Dispatch { seq: frames[0].0, event: frames[0].1 },
        ),
        now_ms,
    ).0;
    assert(c1.state is Connected);
    assert(c1.session.sequence == spec_observe(c.session.sequence, frames[0].0));
    assert(c1.session.sequence == Some(frames[0].0));
    assert(spec_feed_dispatches(c, frames, now_ms) == spec_feed_dispatches(
        c1,
        frames.drop_first(),
        now_ms,
    ));
    if frames.len() == 1 {
        assert(frames.drop_first().len() == 0);
        assert(spec_feed_dispatches(c1, frames.drop_first(), now_ms) == c1);
    }
    if frames.len() > 1 {
        let rest = frames.drop_first();
        assert forall|i: int, j: int|
            #![trigger rest[i], rest[j]]
            0 <= i < j < rest.len() implies rest[i].0 < rest[j].0 by {
            assert(rest[i] == frames[i + 1] && rest[j] == frames[j + 1]);
        }
        assert(rest[0] == frames[1]);
        lemma_dispatch_stream_tracks_last(c1, rest, now_ms);
        assert(rest[rest.len() - 1] == frames[frames.len() - 1]);
    }
}

/// A missed heartbeat ack, detected when the next heartbeat comes due,
/// triggers exactly one reconnect cycle: the firing enters `Reconnecting`
/// and halts the heartbeat supervisor, so a second firing does nothing at
/// all until a new connection starts a new supervisor.
pub proof fn lemma_missed_ack_single_reconnect(c: GatewayClient, now1: u64, now2: u64)
    requires
        c.state is Connected,
        c.heartbeat.running,
        !c.heartbeat.last_ack_received,
    ensures
        ({
            let r1 = spec_step(c, GatewayEvent::HeartbeatDue, now1);
            &&& r1.0.state is Reconnecting
            &&& r1.0.reconnect_count == sat_add_u64(c.reconnect_count, 1)
            &&& !r1.0.heartbeat.running
            &&& spec_step(r1.0, GatewayEvent::HeartbeatDue, now2) == (
                r1.0,
                Seq::<GatewayAction>::empty(),
            )
        }),
{
}

/// When the hello frame arrives, resume is attempted if and only if the
/// session state holds both a session id and a sequence number; otherwise
/// a fresh identify is sent.
pub proof fn lemma_resume_iff_session_held(c: GatewayClient, interval_ms: u64, now: u64)
    requires
        c.state is AwaitingHello,
    ensures
        ({
            let r = spec_step(
                c,
                GatewayEvent::FrameReceived(
                    GatewayFrame::Hello { heartbeat_interval_ms: interval_ms },
                ),
                now,
            );
            &&& c.session.spec_can_resume() ==> r.0.state is Resuming && r.1 == seq![
                GatewayAction::SendCommand(
                    GatewayCommand::Resume {
                        token: c.session.identify_token,
                        session_id: c.session.session_id.unwrap(),
                        seq: c.session.sequence.unwrap(),
                    },
                ),
            ]
            &&& !c.session.spec_can_resume() ==> r.0.state is Identifying && r.1 == seq![
                GatewayAction::SendCommand(
                    GatewayCommand::Identify {
                        token: c.session.identify_token,
                        intents: c.session.intents,
                    },
                ),
            ]
        }),
{
}

/// A decode error on one frame leaves the connection exactly as it was;
/// a heartbeat ack arriving right after is still registered, with the
/// connection still `Connected`.
pub proof fn lemma_decode_error_is_survivable(c: GatewayClient, now1: u64, now2: u64)
    requires
        c.state is Connected,
    ensures
        spec_step(c, GatewayEvent::FrameUndecodable, now1) == (c, Seq::<GatewayAction>::empty()),
        ({
            let r = spec_step(c, GatewayEvent::FrameReceived(GatewayFrame::HeartbeatAck), now2);
            &&& r.0.state is Connected
            &&& r.0.heartbeat.last_ack_received
            &&& r.1 == Seq::<GatewayAction>::empty()
        }),
{
}

/// A rejected identify is terminal: the machine enters `Failed`, surfaces
/// the authentication error to its owner, and afterwards no event -- at
/// any time -- changes the state or produces any action.  In particular
/// no further reconnect attempt is ever made.
pub proof fn lemma_auth_rejection_is_terminal(
    c: GatewayClient,
    now: u64,
    later_ev: GatewayEvent,
    later_now: u64,
)
    requires
        c.state is Identifying,
    ensures
        ({
            let r = spec_step(c, GatewayEvent::AuthRejected, now);
            &&& r.0.state is Failed
            &&& r.1 == seq![
                GatewayAction::CloseTransport,
                GatewayAction::SurfaceError(GatewayError::Authentication),
            ]
            &&& spec_step(r.0, later_ev, later_now) == (r.0, Seq::<GatewayAction>::empty())
        }),
{
}

/// Entering a reconnect cycle without a stable connection behind it
/// advances the attempt counter by one and waits out the backoff computed
/// from the pre-increment counter; together with
/// [`lemma_backoff_monotone`] the waits of consecutive attempts are
/// non-decreasing up to the configured cap.
pub proof fn lemma_reconnect_attempt_grows(c: GatewayClient, now: u64)
    requires
        spec_reset_attempt(c, now) == c.attempt,
    ensures
        spec_begin_reconnect(c, now).attempt == sat_add_u32(c.attempt, 1),
        spec_begin_reconnect(c, now).state == (ConnState::Reconnecting {
            attempt: sat_add_u32(c.attempt, 1),
            backoff_until_ms: sat_add_u64(
                now,
                spec_backoff_ms(c.config.base_backoff_ms, c.config.max_backoff_ms, c.attempt),
            ),
        }),
        spec_backoff_ms(c.config.base_backoff_ms, c.config.max_backoff_ms, c.attempt)
            <= spec_backoff_ms(
            c.config.base_backoff_ms,
            c.config.max_backoff_ms,
            sat_add_u32(c.attempt, 1),
        ),
        spec_backoff_ms(c.config.base_backoff_ms, c.config.max_backoff_ms, c.attempt)
            <= c.config.max_backoff_ms,
{
    lemma_backoff_monotone(
        c.config.base_backoff_ms,
        c.config.max_backoff_ms,
        c.attempt,
        sat_add_u32(c.attempt, 1),
    );
    lemma_backoff_bounds(c.config.base_backoff_ms, c.config.max_backoff_ms, c.attempt);
}

/// After a connection has stayed `Connected` through the stability
/// window, the next failure restarts backoff from the base interval: the
/// attempt counter resets before it is incremented, and the wait is
/// exactly the base backoff.
pub proof fn lemma_stable_connection_resets_backoff(c: GatewayClient, now: u64)
    requires
        c.state is Connected,
        c.config.wf(),
        c.connected_at_ms matches Some(t) && t <= now && now - t
            >= c.config.stability_window_ms,
    ensures
        ({
            let r = spec_step(c, GatewayEvent::TransportFailed, now);
            r.0.state == (ConnState::Reconnecting {
                attempt: 1u32,
                backoff_until_ms: sat_add_u64(now, c.config.base_backoff_ms),
            })
        }),
{
    lemma_backoff_bounds(c.config.base_backoff_ms, c.config.max_backoff_ms, 0);
    assert(spec_reset_attempt(c, now) == 0);
}

} // verus!
