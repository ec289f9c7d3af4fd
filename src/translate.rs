//! Turning protocol messages into ledger events.
use vstd::prelude::*;
use crate::json::JsonValue;
use crate::message::{encodes, message_json, GatewayMessage};

verus! {

/// The id an event carries before the ledger assigns it one.
pub const UNASSIGNED: u64 = 0;

/// What a redacted value is replaced with.
pub open spec fn placeholder() -> Seq<char> {
    "[REDACTED]"@
}

fn placeholder_string() -> (r: String)
    ensures
        r@ == placeholder(),
{
    "[REDACTED]".to_owned()
}

/// The kind under which an event is recorded.
#[derive(Debug, Clone, Copy, PartialEq, Eq, Structural)]
pub enum EventKind {
    AgentEvent,
    OutputChunk,
    Tick,
    Presence,
    Shutdown,
    Custom,
}

/// The durable unit of the ledger.
#[derive(Debug, PartialEq)]
pub struct LedgerEvent {
    pub event_id: u64,
    pub run_id: String,
    pub kind: EventKind,
    pub timestamp: String,
    pub source_connection_id: String,
    pub payload: JsonValue,
    pub redacted: bool,
}

/// The kind under which a message is recorded.
pub open spec fn kind_of(m: GatewayMessage) -> EventKind {
    match m {
        GatewayMessage::AgentEvent { .. } => EventKind::AgentEvent,
        GatewayMessage::OutputChunk { .. } => EventKind::OutputChunk,
        GatewayMessage::Tick { .. } => EventKind::Tick,
        GatewayMessage::Presence { .. } => EventKind::Presence,
        GatewayMessage::Shutdown { .. } => EventKind::Shutdown,
        _ => EventKind::Custom,
    }
}

/// The time a message states of itself, or empty.
pub open spec fn timestamp_of(m: GatewayMessage) -> Seq<char> {
    match m {
        GatewayMessage::Tick { timestamp } => timestamp@,
        GatewayMessage::Presence { timestamp } => timestamp@,
        _ => Seq::empty(),
    }
}

pub open spec fn is_placeholder(v: JsonValue) -> bool {
    v matches JsonValue::Str(s) && s@ == placeholder()
}

/// `b` is `a` with its content hidden: an object keeps its member names, in
/// order, each with the placeholder for its value; anything else becomes the
/// placeholder.
pub open spec fn masked(a: JsonValue, b: JsonValue) -> bool {
    match a {
        JsonValue::Object(fs) => match b {
            JsonValue::Object(gs) => {
                &&& gs@.len() == fs@.len()
                &&& forall|i: int|
                    0 <= i < fs@.len() ==> (#[trigger] gs@[i]).0 == fs@[i].0 && is_placeholder(
                        gs@[i].1,
                    )
            },
            _ => false,
        },
        _ => is_placeholder(b),
    }
}

/// `r` is `m` with its sensitive fields (tool arguments, output content)
/// masked, and everything else as it was.
pub open spec fn redaction_of(m: GatewayMessage, r: GatewayMessage) -> bool {
    match m {
        GatewayMessage::ToolCall { run_id, tool, args, span_id } => match r {
            GatewayMessage::ToolCall { run_id: r2, tool: t2, args: a2, span_id: s2 } => r2 == run_id
                && t2 == tool && s2 == span_id && masked(args, a2),
            _ => false,
        },
        GatewayMessage::OutputChunk { run_id, content } => match r {
            GatewayMessage::OutputChunk { run_id: r2, content: c2 } => r2 == run_id && c2@
                == placeholder(),
            _ => false,
        },
        _ => r == m,
    }
}

/// Masks a JSON value, keeping the member names of an object.
pub fn mask(v: JsonValue) -> (r: JsonValue)
    ensures
        masked(v, r),
{
    match v {
        JsonValue::Object(fs) => {
            let mut gs: Vec<(String, JsonValue)> = Vec::new();
            let mut rest = fs;
            let ghost orig = rest@;
            let mut i: usize = 0;
            while i < rest.len()
                invariant
                    rest@ == orig,
                    i <= rest.len(),
                    gs@.len() == i,
                    forall|j: int|
                        0 <= j < i ==> (#[trigger] gs@[j]).0 == orig[j].0 && is_placeholder(
                            gs@[j].1,
                        ),
                decreases rest.len() - i,
            {
                let key = rest[i].0.clone();
                gs.push((key, JsonValue::Str(placeholder_string())));
                i = i + 1;
            }
            JsonValue::Object(gs)
        },
        _ => JsonValue::Str(placeholder_string()),
    }
}

/// Hides the sensitive fields of a message.
pub fn redact_message(m: GatewayMessage) -> (r: GatewayMessage)
    ensures
        redaction_of(m, r),
{
    match m {
        GatewayMessage::ToolCall { run_id, tool, args, span_id } => GatewayMessage::ToolCall {
            run_id,
            tool,
            args: mask(args),
            span_id,
        },
        GatewayMessage::OutputChunk { run_id, content } => GatewayMessage::OutputChunk {
            run_id,
            content: placeholder_string(),
        },
        other => other,
    }
}

fn timestamp_text(m: &GatewayMessage) -> (r: String)
    ensures
        r@ == timestamp_of(*m),
{
    match m {
        GatewayMessage::Tick { timestamp } => timestamp.clone(),
        GatewayMessage::Presence { timestamp } => timestamp.clone(),
        _ => String::new(),
    }
}

fn kind_text(m: &GatewayMessage) -> (r: EventKind)
    ensures
        r == kind_of(*m),
{
    match m {
        GatewayMessage::AgentEvent { .. } => EventKind::AgentEvent,
        GatewayMessage::OutputChunk { .. } => EventKind::OutputChunk,
        GatewayMessage::Tick { .. } => EventKind::Tick,
        GatewayMessage::Presence { .. } => EventKind::Presence,
        GatewayMessage::Shutdown { .. } => EventKind::Shutdown,
        _ => EventKind::Custom,
    }
}

/// Turns a message into an event ready for the ledger. Total: every kind of
/// message gives an event, those without a kind of their own as `Custom`.
/// The payload is the message's encoding, with its sensitive fields masked
/// when `redact` holds; the id is left unassigned.
pub fn translate(run_id: &str, msg: GatewayMessage, redact: bool) -> (r: LedgerEvent)
    ensures
        r.event_id == UNASSIGNED,
        r.run_id@ == run_id@,
        r.kind == kind_of(msg),
        r.timestamp@ == timestamp_of(msg),
        r.source_connection_id@ == Seq::<char>::empty(),
        r.redacted == redact,
        !redact ==> encodes(r.payload, msg),
        redact ==> exists|m: GatewayMessage| redaction_of(msg, m) && encodes(r.payload, m),
{
    let kind = kind_text(&msg);
    let timestamp = timestamp_text(&msg);
    let payload = if redact {
        let hidden = redact_message(msg);
        let ghost h = hidden;
        let p = message_json(hidden);
        assert(redaction_of(msg, h) && encodes(p, h));
        p
    } else {
        message_json(msg)
    };
    LedgerEvent {
        event_id: UNASSIGNED,
        run_id: run_id.to_owned(),
        kind,
        timestamp,
        source_connection_id: String::new(),
        payload,
        redacted: redact,
    }
}

} // verus!
