//! Frame codec: the one place that understands the wire encoding.
//!
//! Inbound text frames are JSON envelopes shaped `{op, d, s, t}`.  A
//! trusted wrapper flattens such a frame into the plain [`RawEnvelope`];
//! everything that decides what a frame *means* is the verified
//! [`classify_envelope`].  Outbound commands are encoded by verified code
//! with an exact character-level contract.

use vstd::prelude::*;
use crate::commands::{GatewayCommand, spec_status_name};
use crate::strutil::str_eq;
use crate::jsonenc::{append_dec, append_json_escaped, spec_dec_digits, spec_json_escape};

verus! {

/// The fields a wire envelope may carry, flattened to plain values.
/// Fields the frame does not have (or has with the wrong type) are `None`.
#[derive(Debug, Clone)]
pub struct RawEnvelope {
    /// `op`, the opcode.
    pub op: Option<u64>,
    /// `s`, the dispatch sequence number.
    pub seq: Option<u64>,
    /// `t`, the dispatch event name.
    pub event: Option<String>,
    /// `d.heartbeat_interval` of a hello frame, in milliseconds.
    pub heartbeat_interval_ms: Option<u64>,
    /// `d` itself when it is the boolean of an invalid-session frame.
    pub resumable: Option<bool>,
    /// `d.session_id` of a ready dispatch.
    pub session_id: Option<String>,
    /// `d.resume_gateway_url` of a ready dispatch.
    pub resume_url: Option<String>,
    /// `d.channel_id` of message and typing dispatches.
    pub channel_id: Option<String>,
    /// `d.user_id` of typing and presence dispatches.
    pub user_id: Option<String>,
    /// `d.author.id` of message dispatches.
    pub author_id: Option<String>,
    /// `d.member.nick` of typing dispatches.
    pub member_nick: Option<String>,
}

/// The envelope the platform's JSON grammar gives to a text frame:
/// `None` where the text is not a JSON object.
pub uninterp spec fn envelope_of(text: Seq<char>) -> Option<RawEnvelope>;

/// Relies on `serde_json::from_str` and `serde_json::Value`'s accessors:
/// parses one wire frame and reads out the envelope fields the protocol
/// logic needs, as plain values.  The result is a function of the text
/// alone.
#[verifier::external_body]
fn parse_envelope(text: &str) -> (r: Option<RawEnvelope>)
    ensures
        r == envelope_of(text@),
{
    let v: serde_json::Value = serde_json::from_str(text).ok()?;
    let nv = |p: &str| v.pointer(p).and_then(serde_json::Value::as_u64);
    let sv = |p: &str| v.pointer(p).and_then(serde_json::Value::as_str).map(str::to_string);
    Some(RawEnvelope {
        op: nv("/op"), seq: nv("/s"), event: sv("/t"),
        heartbeat_interval_ms: nv("/d/heartbeat_interval"),
        resumable: v.pointer("/d").and_then(serde_json::Value::as_bool),
        session_id: sv("/d/session_id"), resume_url: sv("/d/resume_gateway_url"),
        channel_id: sv("/d/channel_id"), user_id: sv("/d/user_id"),
        author_id: sv("/d/author/id"), member_nick: sv("/d/member/nick"),
    })
}

/// A decoded dispatch payload, carrying the minimal data collaborators
/// need.  Immutable once produced.
#[derive(Debug)]
pub enum DispatchEvent {
    /// Session established; carries the session id and, when the server
    /// offers one, the URL to resume at.
    Ready { session_id: String, resume_url: Option<String> },
    /// A resume replay finished.
    Resumed,
    /// A user sent a message.
    MessageCreate { channel_id: String, author_id: String },
    /// A message changed.
    MessageUpdate { channel_id: String },
    /// A message was deleted.
    MessageDelete { channel_id: String },
    /// A user started typing; `display_name` is the member nick when the
    /// payload has one, the user id otherwise.
    TypingStart { channel_id: String, user_id: String, display_name: String },
    /// A user's presence changed.
    PresenceUpdate { user_id: String },
    /// A dispatch this client does not interpret, kept by name.
    Other { name: String },
}

impl Clone for DispatchEvent {
    /// A field-for-field copy.
    fn clone(&self) -> (r: DispatchEvent)
        ensures
            r == *self,
    {
        match self {
            DispatchEvent::Ready { session_id, resume_url } => DispatchEvent::Ready {
                session_id: session_id.clone(),
                resume_url: match resume_url {
                    Some(u) => Some(u.clone()),
                    None => None,
                },
            },
            DispatchEvent::Resumed => DispatchEvent::Resumed,
            DispatchEvent::MessageCreate { channel_id, author_id } => DispatchEvent::MessageCreate {
                channel_id: channel_id.clone(),
                author_id: author_id.clone(),
            },
            DispatchEvent::MessageUpdate { channel_id } => DispatchEvent::MessageUpdate {
                channel_id: channel_id.clone(),
            },
            DispatchEvent::MessageDelete { channel_id } => DispatchEvent::MessageDelete {
                channel_id: channel_id.clone(),
            },
            DispatchEvent::TypingStart { channel_id, user_id, display_name } => (
                DispatchEvent::TypingStart {
                    channel_id: channel_id.clone(),
                    user_id: user_id.clone(),
                    display_name: display_name.clone(),
                }
            ),
            DispatchEvent::PresenceUpdate { user_id } => DispatchEvent::PresenceUpdate {
                user_id: user_id.clone(),
            },
            DispatchEvent::Other { name } => DispatchEvent::Other { name: name.clone() },
        }
    }
}

/// A frame the server can send, after decoding.
#[derive(Debug, Clone)]
pub enum GatewayFrame {
    /// First frame after connecting; carries the heartbeat interval.
    Hello { heartbeat_interval_ms: u64 },
    /// The server acknowledged a heartbeat.
    HeartbeatAck,
    /// The server asks the client to reconnect (and resume).
    Reconnect,
    /// The session is invalid; it may be resumed only if `resumable`.
    InvalidSession { resumable: bool },
    /// An ordered dispatch event.
    Dispatch { seq: u64, event: DispatchEvent },
}

/// Why a single frame could not be decoded.  Never fatal to the
/// connection: the caller drops the frame and goes on.
#[derive(Debug, Clone, PartialEq, Eq, Structural)]
pub enum DecodeError {
    /// The text is not a JSON object or lacks a numeric `op`.
    MalformedFrame,
    /// The opcode is not one this client understands.
    UnknownOpcode { op: u64 },
    /// The opcode is known but the payload lacks a required field.
    MalformedPayload,
}

/// Opcode of a dispatch frame.
pub const OP_DISPATCH: u64 = 0;

/// Opcode of an outbound heartbeat.
pub const OP_HEARTBEAT: u64 = 1;

/// Opcode of an outbound identify.
pub const OP_IDENTIFY: u64 = 2;

/// Opcode of an outbound presence update.
pub const OP_PRESENCE: u64 = 3;

/// Opcode of an outbound resume.
pub const OP_RESUME: u64 = 6;

/// Opcode of a server-initiated reconnect request.
pub const OP_RECONNECT: u64 = 7;

/// Opcode of an invalid-session notice.
pub const OP_INVALID_SESSION: u64 = 9;

/// Opcode of the hello frame.
pub const OP_HELLO: u64 = 10;

/// Opcode of a heartbeat acknowledgement.
pub const OP_HEARTBEAT_ACK: u64 = 11;

/// Opcode of an outbound typing notice.
pub const OP_TYPING: u64 = 12;

/// The dispatch event an envelope with event name `name` denotes.
pub open spec fn spec_classify_dispatch(env: RawEnvelope, name: Seq<char>) -> Result<
    DispatchEvent,
    DecodeError,
> {
    if name == "READY"@ {
        match env.session_id {
            Some(sid) => Ok(DispatchEvent::Ready { session_id: sid, resume_url: env.resume_url }),
            None => Err(DecodeError::MalformedPayload),
        }
    } else if name == "RESUMED"@ {
        Ok(DispatchEvent::Resumed)
    } else if name == "MESSAGE_CREATE"@ {
        match (env.channel_id, env.author_id) {
            (Some(c), Some(a)) => Ok(DispatchEvent::MessageCreate { channel_id: c, author_id: a }),
            _ => Err(DecodeError::MalformedPayload),
        }
    } else if name == "MESSAGE_UPDATE"@ {
        match env.channel_id {
            Some(c) => Ok(DispatchEvent::MessageUpdate { channel_id: c }),
            None => Err(DecodeError::MalformedPayload),
        }
    } else if name == "MESSAGE_DELETE"@ {
        match env.channel_id {
            Some(c) => Ok(DispatchEvent::MessageDelete { channel_id: c }),
            None => Err(DecodeError::MalformedPayload),
        }
    } else if name == "TYPING_START"@ {
        match (env.channel_id, env.user_id) {
            (Some(c), Some(u)) => Ok(
                DispatchEvent::TypingStart {
                    channel_id: c,
                    display_name: match env.member_nick {
                        Some(n) => n,
                        None => u,
                    },
                    user_id: u,
                },
            ),
            _ => Err(DecodeError::MalformedPayload),
        }
    } else if name == "PRESENCE_UPDATE"@ {
        match env.user_id {
            Some(u) => Ok(DispatchEvent::PresenceUpdate { user_id: u }),
            None => Err(DecodeError::MalformedPayload),
        }
    } else {
        match env.event {
            Some(n) => Ok(DispatchEvent::Other { name: n }),
            None => Err(DecodeError::MalformedPayload),
        }
    }
}

/// The frame an envelope denotes, or the error a caller must treat as
/// "drop this frame and continue".
pub open spec fn spec_classify(env: RawEnvelope) -> Result<GatewayFrame, DecodeError> {
    match env.op {
        None => Err(DecodeError::MalformedFrame),
        Some(op) => if op == OP_HELLO {
            match env.heartbeat_interval_ms {
                Some(i) => Ok(GatewayFrame::Hello { heartbeat_interval_ms: i }),
                None => Err(DecodeError::MalformedPayload),
            }
        } else if op == OP_HEARTBEAT_ACK {
            Ok(GatewayFrame::HeartbeatAck)
        } else if op == OP_RECONNECT {
            Ok(GatewayFrame::Reconnect)
        } else if op == OP_INVALID_SESSION {
            Ok(GatewayFrame::InvalidSession { resumable: env.resumable == Some(true) })
        } else if op == OP_DISPATCH {
            match (env.seq, env.event) {
                (Some(seq), Some(name)) => match spec_classify_dispatch(env, name@) {
                    Ok(ev) => Ok(GatewayFrame::Dispatch { seq, event: ev }),
                    Err(e) => Err(e),
                },
                _ => Err(DecodeError::MalformedPayload),
            }
        } else {
            Err(DecodeError::UnknownOpcode { op })
        },
    }
}

/// Decides what an already-flattened envelope means.
pub fn classify_envelope(env: RawEnvelope) -> (r: Result<GatewayFrame, DecodeError>)
    ensures
        r == spec_classify(env),
{
    let op = match env.op {
        Some(op) => op,
        None => return Err(DecodeError::MalformedFrame),
    };
    if op == OP_HELLO {
        match env.heartbeat_interval_ms {
            Some(i) => Ok(GatewayFrame::Hello { heartbeat_interval_ms: i }),
            None => Err(DecodeError::MalformedPayload),
        }
    } else if op == OP_HEARTBEAT_ACK {
        Ok(GatewayFrame::HeartbeatAck)
    } else if op == OP_RECONNECT {
        Ok(GatewayFrame::Reconnect)
    } else if op == OP_INVALID_SESSION {
        Ok(GatewayFrame::InvalidSession { resumable: env.resumable == Some(true) })
    } else if op == OP_DISPATCH {
        let seq = match env.seq {
            Some(s) => s,
            None => return Err(DecodeError::MalformedPayload),
        };
        let name = match &env.event {
            Some(n) => n.clone(),
            None => return Err(DecodeError::MalformedPayload),
        };
        match classify_dispatch(env, &name) {
            Ok(ev) => Ok(GatewayFrame::Dispatch { seq, event: ev }),
            Err(e) => Err(e),
        }
    } else {
        Err(DecodeError::UnknownOpcode { op })
    }
}

fn classify_dispatch(env: RawEnvelope, name: &str) -> (r: Result<DispatchEvent, DecodeError>)
    ensures
        r == spec_classify_dispatch(env, name@),
{
    if str_eq(name, "READY") {
        match env.session_id {
            Some(sid) => Ok(DispatchEvent::Ready { session_id: sid, resume_url: env.resume_url }),
            None => Err(DecodeError::MalformedPayload),
        }
    } else if str_eq(name, "RESUMED") {
        Ok(DispatchEvent::Resumed)
    } else if str_eq(name, "MESSAGE_CREATE") {
        match (env.channel_id, env.author_id) {
            (Some(c), Some(a)) => Ok(DispatchEvent::MessageCreate { channel_id: c, author_id: a }),
            _ => Err(DecodeError::MalformedPayload),
        }
    } else if str_eq(name, "MESSAGE_UPDATE") {
        match env.channel_id {
            Some(c) => Ok(DispatchEvent::MessageUpdate { channel_id: c }),
            None => Err(DecodeError::MalformedPayload),
        }
    } else if str_eq(name, "MESSAGE_DELETE") {
        match env.channel_id {
            Some(c) => Ok(DispatchEvent::MessageDelete { channel_id: c }),
            None => Err(DecodeError::MalformedPayload),
        }
    } else if str_eq(name, "TYPING_START") {
        match (env.channel_id, env.user_id) {
            (Some(c), Some(u)) => Ok(
                DispatchEvent::TypingStart {
                    channel_id: c,
                    display_name: match env.member_nick {
                        Some(n) => n,
                        None => u.clone(),
                    },
                    user_id: u,
                },
            ),
            _ => Err(DecodeError::MalformedPayload),
        }
    } else if str_eq(name, "PRESENCE_UPDATE") {
        match env.user_id {
            Some(u) => Ok(DispatchEvent::PresenceUpdate { user_id: u }),
            None => Err(DecodeError::MalformedPayload),
        }
    } else {
        match env.event {
            Some(n) => Ok(DispatchEvent::Other { name: n }),
            None => Err(DecodeError::MalformedPayload),
        }
    }
}

/// What [`decode_frame`] returns for a given frame text.
pub open spec fn spec_decode_frame(text: Seq<char>) -> Result<GatewayFrame, DecodeError> {
    match envelope_of(text) {
        None => Err(DecodeError::MalformedFrame),
        Some(env) => spec_classify(env),
    }
}

/// Decodes one inbound text frame.  A decode error means this frame is
/// dropped; it never tears the connection down.
pub fn decode_frame(text: &str) -> (r: Result<GatewayFrame, DecodeError>)
    ensures
        r == spec_decode_frame(text@),
{
    match parse_envelope(text) {
        None => Err(DecodeError::MalformedFrame),
        Some(env) => classify_envelope(env),
    }
}

/// The exact text [`encode_command`] produces for a command.  Encoding is
/// deterministic and a pure function of the command.
pub open spec fn spec_encode_command(c: GatewayCommand) -> Seq<char> {
    match c {
        GatewayCommand::Heartbeat { ack_seq } => "{\"op\":1,\"d\":"@ + (match ack_seq {
            Some(s) => spec_dec_digits(s as int),
            None => "null"@,
        }) + "}"@,
        GatewayCommand::Identify { token, intents } => "{\"op\":2,\"d\":{\"token\":\""@
            + spec_json_escape(token@) + "\",\"intents\":"@ + spec_dec_digits(intents as int)
            + ",\"properties\":{\"os\":\"Linux\",\"browser\":\"Chrome\",\"device\":\"\"}}}"@,
        GatewayCommand::Resume { token, session_id, seq } => "{\"op\":6,\"d\":{\"token\":\""@
            + spec_json_escape(token@) + "\",\"session_id\":\""@ + spec_json_escape(session_id@)
            + "\",\"seq\":"@ + spec_dec_digits(seq as int) + "}}"@,
        GatewayCommand::UpdatePresence { status } => "{\"op\":3,\"d\":{\"status\":\""@
            + spec_status_name(status) + "\"}}"@,
        GatewayCommand::TypingStart { channel_id } => "{\"op\":12,\"d\":{\"channel_id\":\""@
            + spec_json_escape(channel_id@) + "\"}}"@,
    }
}

/// Encodes one outbound command as wire text.
pub fn encode_command(c: &GatewayCommand) -> (r: String)
    ensures
        r@ == spec_encode_command(*c),
{
    let mut out = String::new();
    match c {
        GatewayCommand::Heartbeat { ack_seq } => {
            out.append("{\"op\":1,\"d\":");
            match ack_seq {
                Some(s) => append_dec(&mut out, *s),
                None => out.append("null"),
            }
            out.append("}");
        },
        GatewayCommand::Identify { token, intents } => {
            out.append("{\"op\":2,\"d\":{\"token\":\"");
            append_json_escaped(&mut out, token.as_str());
            out.append("\",\"intents\":");
            append_dec(&mut out, *intents);
            out.append(",\"properties\":{\"os\":\"Linux\",\"browser\":\"Chrome\",\"device\":\"\"}}}");
        },
        GatewayCommand::Resume { token, session_id, seq } => {
            out.append("{\"op\":6,\"d\":{\"token\":\"");
            append_json_escaped(&mut out, token.as_str());
            out.append("\",\"session_id\":\"");
            append_json_escaped(&mut out, session_id.as_str());
            out.append("\",\"seq\":");
            append_dec(&mut out, *seq);
            out.append("}}");
        },
        GatewayCommand::UpdatePresence { status } => {
            out.append("{\"op\":3,\"d\":{\"status\":\"");
            out.append(status.wire_name());
            out.append("\"}}");
        },
        GatewayCommand::TypingStart { channel_id } => {
            out.append("{\"op\":12,\"d\":{\"channel_id\":\"");
            append_json_escaped(&mut out, channel_id.as_str());
            out.append("\"}}");
        },
    }
    proof {
        assert(out@ =~= spec_encode_command(*c));
    }
    out
}

} // verus!

