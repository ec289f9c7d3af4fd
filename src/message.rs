//! The wire messages of the control-plane bus: a JSON object per frame,
//! told apart by its `"type"` member.
use vstd::prelude::*;
use crate::json::{
    get_field, json_parse, json_render, lookup, parse_json, push_member, render_json,
    str_at, str_field, take_field, u64_at, u64_field, JsonNumber, JsonValue,
};

verus! {

/// What a challenge carries.
#[derive(Debug, Clone, PartialEq)]
pub struct ChallengePayload {
    pub nonce: String,
    pub ts: u64,
}

/// One message of the bus protocol.
#[derive(Debug, PartialEq)]
#[allow(inconsistent_fields)]
pub enum GatewayMessage {
    /// Opens the handshake.
    Connect { role: String, version: String },
    /// Asks the client to authenticate.
    ConnectChallenge { event: String, payload: ChallengePayload },
    /// Answers a challenge.
    Auth { token: String, nonce: String },
    /// Completes the handshake.
    Connected { session_id: String },
    /// Asks for the named channels.
    Subscribe { channels: Vec<String> },
    /// An event of an agent run.
    AgentEvent { run_id: String, event: JsonValue },
    /// A tool call that started.
    ToolCall { run_id: String, tool: String, args: JsonValue, span_id: String },
    /// A tool call that completed.
    ToolResult { run_id: String, span_id: String, result: JsonValue, duration_ms: u64 },
    /// A piece of streamed output.
    OutputChunk { run_id: String, content: String },
    /// A presence heartbeat.
    Presence { timestamp: String },
    /// A clock tick.
    Tick { timestamp: String },
    /// The bus is going down.
    Shutdown { reason: String },
    /// A protocol error.
    Error { code: String, message: String },
    Ping,
    Pong,
}

/// The `"type"` member of each kind of message.
pub open spec fn tag_of(m: GatewayMessage) -> Seq<char> {
    match m {
        GatewayMessage::Connect { .. } => "connect"@,
        GatewayMessage::ConnectChallenge { .. } => "event"@,
        GatewayMessage::Auth { .. } => "auth"@,
        GatewayMessage::Connected { .. } => "connected"@,
        GatewayMessage::Subscribe { .. } => "subscribe"@,
        GatewayMessage::AgentEvent { .. } => "agentevent"@,
        GatewayMessage::ToolCall { .. } => "toolcall"@,
        GatewayMessage::ToolResult { .. } => "toolresult"@,
        GatewayMessage::OutputChunk { .. } => "outputchunk"@,
        GatewayMessage::Presence { .. } => "presence"@,
        GatewayMessage::Tick { .. } => "tick"@,
        GatewayMessage::Shutdown { .. } => "shutdown"@,
        GatewayMessage::Error { .. } => "error"@,
        GatewayMessage::Ping => "ping"@,
        GatewayMessage::Pong => "pong"@,
    }
}

/// The members other than `"type"` that each kind of message has, in order.
pub open spec fn member_names(m: GatewayMessage) -> Seq<Seq<char>> {
    match m {
        GatewayMessage::Connect { .. } => seq!["role"@, "version"@],
        GatewayMessage::ConnectChallenge { .. } => seq!["event"@, "payload"@],
        GatewayMessage::Auth { .. } => seq!["token"@, "nonce"@],
        GatewayMessage::Connected { .. } => seq!["session_id"@],
        GatewayMessage::Subscribe { .. } => seq!["channels"@],
        GatewayMessage::AgentEvent { .. } => seq!["run_id"@, "event"@],
        GatewayMessage::ToolCall { .. } => seq!["run_id"@, "tool"@, "args"@, "span_id"@],
        GatewayMessage::ToolResult { .. } => seq!["run_id"@, "span_id"@, "result"@, "duration_ms"@],
        GatewayMessage::OutputChunk { .. } => seq!["run_id"@, "content"@],
        GatewayMessage::Presence { .. } => seq!["timestamp"@],
        GatewayMessage::Tick { .. } => seq!["timestamp"@],
        GatewayMessage::Shutdown { .. } => seq!["reason"@],
        GatewayMessage::Error { .. } => seq!["code"@, "message"@],
        GatewayMessage::Ping => seq![],
        GatewayMessage::Pong => seq![],
    }
}

/// `items` are exactly the strings `strs`, in order.
pub open spec fn all_strings(items: Seq<JsonValue>, strs: Seq<String>) -> bool {
    &&& items.len() == strs.len()
    &&& forall|i: int| 0 <= i < items.len() ==> items[i] == JsonValue::Str(#[trigger] strs[i])
}

/// The members of object `fs` carry exactly the fields of `m`.
pub open spec fn members_match(fs: Seq<(String, JsonValue)>, m: GatewayMessage) -> bool {
    match m {
        GatewayMessage::Connect { role, version } => str_at(fs, "role"@) == Some(role) && str_at(
            fs,
            "version"@,
        ) == Some(version),
        GatewayMessage::ConnectChallenge { event, payload } => str_at(fs, "event"@) == Some(event)
            && match lookup(fs, "payload"@) {
            Some(JsonValue::Object(ps)) => str_at(ps@, "nonce"@) == Some(payload.nonce) && u64_at(
                ps@,
                "ts"@,
            ) == Some(payload.ts),
            _ => false,
        },
        GatewayMessage::Auth { token, nonce } => str_at(fs, "token"@) == Some(token) && str_at(
            fs,
            "nonce"@,
        ) == Some(nonce),
        GatewayMessage::Connected { session_id } => str_at(fs, "session_id"@) == Some(session_id),
        GatewayMessage::Subscribe { channels } => match lookup(fs, "channels"@) {
            Some(JsonValue::Array(items)) => all_strings(items@, channels@),
            _ => false,
        },
        GatewayMessage::AgentEvent { run_id, event } => str_at(fs, "run_id"@) == Some(run_id)
            && lookup(fs, "event"@) == Some(event),
        GatewayMessage::ToolCall { run_id, tool, args, span_id } => str_at(fs, "run_id"@) == Some(
            run_id,
        ) && str_at(fs, "tool"@) == Some(tool) && lookup(fs, "args"@) == Some(args) && str_at(
            fs,
            "span_id"@,
        ) == Some(span_id),
        GatewayMessage::ToolResult { run_id, span_id, result, duration_ms } => str_at(
            fs,
            "run_id"@,
        ) == Some(run_id) && str_at(fs, "span_id"@) == Some(span_id) && lookup(fs, "result"@)
            == Some(result) && u64_at(fs, "duration_ms"@) == Some(duration_ms),
        GatewayMessage::OutputChunk { run_id, content } => str_at(fs, "run_id"@) == Some(run_id)
            && str_at(fs, "content"@) == Some(content),
        GatewayMessage::Presence { timestamp } => str_at(fs, "timestamp"@) == Some(timestamp),
        GatewayMessage::Tick { timestamp } => str_at(fs, "timestamp"@) == Some(timestamp),
        GatewayMessage::Shutdown { reason } => str_at(fs, "reason"@) == Some(reason),
        GatewayMessage::Error { code, message } => str_at(fs, "code"@) == Some(code) && str_at(
            fs,
            "message"@,
        ) == Some(message),
        GatewayMessage::Ping => true,
        GatewayMessage::Pong => true,
    }
}

/// `v` is a JSON encoding of `m`: an object whose `"type"` member names the
/// kind of `m` and whose other members carry its fields.
pub open spec fn encodes(v: JsonValue, m: GatewayMessage) -> bool {
    match v {
        JsonValue::Object(fs) => match str_at(fs@, "type"@) {
            Some(t) => t@ == tag_of(m) && members_match(fs@, m),
            None => false,
        },
        _ => false,
    }
}

pub open spec fn has_str(fs: Seq<(String, JsonValue)>, key: Seq<char>) -> bool {
    str_at(fs, key) is Some
}

/// An object of kind `t` has the members that kind asks for, of the right
/// JSON types.
pub open spec fn shape_ok(fs: Seq<(String, JsonValue)>, t: Seq<char>) -> bool {
    if t == "connect"@ {
        has_str(fs, "role"@) && has_str(fs, "version"@)
    } else if t == "event"@ {
        has_str(fs, "event"@) && match lookup(fs, "payload"@) {
            Some(JsonValue::Object(ps)) => has_str(ps@, "nonce"@) && u64_at(ps@, "ts"@) is Some,
            _ => false,
        }
    } else if t == "auth"@ {
        has_str(fs, "token"@) && has_str(fs, "nonce"@)
    } else if t == "connected"@ {
        has_str(fs, "session_id"@)
    } else if t == "subscribe"@ {
        match lookup(fs, "channels"@) {
            Some(JsonValue::Array(items)) => forall|i: int|
                0 <= i < items@.len() ==> #[trigger] items@[i] is Str,
            _ => false,
        }
    } else if t == "agentevent"@ {
        has_str(fs, "run_id"@) && lookup(fs, "event"@) is Some
    } else if t == "toolcall"@ {
        has_str(fs, "run_id"@) && has_str(fs, "tool"@) && lookup(fs, "args"@) is Some && has_str(
            fs,
            "span_id"@,
        )
    } else if t == "toolresult"@ {
        has_str(fs, "run_id"@) && has_str(fs, "span_id"@) && lookup(fs, "result"@) is Some
            && u64_at(fs, "duration_ms"@) is Some
    } else if t == "outputchunk"@ {
        has_str(fs, "run_id"@) && has_str(fs, "content"@)
    } else if t == "presence"@ || t == "tick"@ {
        has_str(fs, "timestamp"@)
    } else if t == "shutdown"@ {
        has_str(fs, "reason"@)
    } else if t == "error"@ {
        has_str(fs, "code"@) && has_str(fs, "message"@)
    } else {
        t == "ping"@ || t == "pong"@
    }
}

/// `v` is the encoding of some message.
pub open spec fn decodable(v: JsonValue) -> bool {
    match v {
        JsonValue::Object(fs) => match str_at(fs@, "type"@) {
            Some(t) => shape_ok(fs@, t@),
            None => false,
        },
        _ => false,
    }
}

fn is_lit(t: &String, lit: &str) -> (r: bool)
    ensures
        r == (t@ == lit@),
{
    let l = lit.to_owned();
    *t == l
}

fn strings_of(items: &Vec<JsonValue>) -> (r: Option<Vec<String>>)
    ensures
        match r {
            Some(out) => all_strings(items@, out@) && forall|i: int|
                0 <= i < items@.len() ==> #[trigger] items@[i] is Str,
            None => !(forall|i: int| 0 <= i < items@.len() ==> #[trigger] items@[i] is Str),
        },
{
    let mut out: Vec<String> = Vec::new();
    let mut i: usize = 0;
    while i < items.len()
        invariant
            i <= items.len(),
            out@.len() == i,
            forall|j: int| 0 <= j < i ==> items@[j] == JsonValue::Str(#[trigger] out@[j]),
            forall|j: int| 0 <= j < i ==> #[trigger] items@[j] is Str,
        decreases items.len() - i,
    {
        match &items[i] {
            JsonValue::Str(s) => out.push(s.clone()),
            _ => return None,
        }
        i = i + 1;
    }
    Some(out)
}

/// Reads a message out of a JSON document. Yields a message exactly when the
/// document is the encoding of one, and then the message it encodes.
pub fn decode_message(v: JsonValue) -> (r: Option<GatewayMessage>)
    ensures
        r is Some <==> decodable(v),
        match r {
            Some(m) => encodes(v, m),
            None => true,
        },
{
    let mut fs = match v {
        JsonValue::Object(fs) => fs,
        _ => return None,
    };
    let ghost fs0 = fs@;
    let t = match str_field(&fs, "type") {
        Some(t) => t,
        None => return None,
    };
    if is_lit(&t, "connect") {
        match (str_field(&fs, "role"), str_field(&fs, "version")) {
            (Some(role), Some(version)) => Some(GatewayMessage::Connect { role, version }),
            _ => None,
        }
    } else if is_lit(&t, "event") {
        let event = match str_field(&fs, "event") {
            Some(e) => e,
            None => return None,
        };
        match get_field(&fs, "payload") {
            Some(JsonValue::Object(ps)) => match (str_field(ps, "nonce"), u64_field(ps, "ts")) {
                (Some(nonce), Some(ts)) => Some(
                    GatewayMessage::ConnectChallenge { event, payload: ChallengePayload { nonce, ts } },
                ),
                _ => None,
            },
            _ => None,
        }
    } else if is_lit(&t, "auth") {
        match (str_field(&fs, "token"), str_field(&fs, "nonce")) {
            (Some(token), Some(nonce)) => Some(GatewayMessage::Auth { token, nonce }),
            _ => None,
        }
    } else if is_lit(&t, "connected") {
        match str_field(&fs, "session_id") {
            Some(session_id) => Some(GatewayMessage::Connected { session_id }),
            None => None,
        }
    } else if is_lit(&t, "subscribe") {
        match get_field(&fs, "channels") {
            Some(JsonValue::Array(items)) => match strings_of(items) {
                Some(channels) => Some(GatewayMessage::Subscribe { channels }),
                None => None,
            },
            _ => None,
        }
    } else if is_lit(&t, "agentevent") {
        let run_id = match str_field(&fs, "run_id") {
            Some(x) => x,
            None => return None,
        };
        match take_field(&mut fs, "event") {
            Some(event) => Some(GatewayMessage::AgentEvent { run_id, event }),
            None => None,
        }
    } else if is_lit(&t, "toolcall") {
        match (str_field(&fs, "run_id"), str_field(&fs, "tool"), str_field(&fs, "span_id")) {
            (Some(run_id), Some(tool), Some(span_id)) => match take_field(&mut fs, "args") {
                Some(args) => Some(GatewayMessage::ToolCall { run_id, tool, args, span_id }),
                None => None,
            },
            _ => None,
        }
    } else if is_lit(&t, "toolresult") {
        match (str_field(&fs, "run_id"), str_field(&fs, "span_id"), u64_field(&fs, "duration_ms")) {
            (Some(run_id), Some(span_id), Some(duration_ms)) => match take_field(&mut fs, "result") {
                Some(result) => Some(
                    GatewayMessage::ToolResult { run_id, span_id, result, duration_ms },
                ),
                None => None,
            },
            _ => None,
        }
    } else if is_lit(&t, "outputchunk") {
        match (str_field(&fs, "run_id"), str_field(&fs, "content")) {
            (Some(run_id), Some(content)) => Some(GatewayMessage::OutputChunk { run_id, content }),
            _ => None,
        }
    } else if is_lit(&t, "presence") {
        match str_field(&fs, "timestamp") {
            Some(timestamp) => Some(GatewayMessage::Presence { timestamp }),
            None => None,
        }
    } else if is_lit(&t, "tick") {
        match str_field(&fs, "timestamp") {
            Some(timestamp) => Some(GatewayMessage::Tick { timestamp }),
            None => None,
        }
    } else if is_lit(&t, "shutdown") {
        match str_field(&fs, "reason") {
            Some(reason) => Some(GatewayMessage::Shutdown { reason }),
            None => None,
        }
    } else if is_lit(&t, "error") {
        match (str_field(&fs, "code"), str_field(&fs, "message")) {
            (Some(code), Some(message)) => Some(GatewayMessage::Error { code, message }),
            _ => None,
        }
    } else if is_lit(&t, "ping") {
        Some(GatewayMessage::Ping)
    } else if is_lit(&t, "pong") {
        Some(GatewayMessage::Pong)
    } else {
        None
    }
}

/// Length and first two characters of a text: enough to tell apart the
/// member names and kind tags of the protocol.
pub open spec fn signature(s: Seq<char>) -> (int, char, char) {
    (s.len() as int, s[0], s[1])
}

/// The signatures of the protocol's member names and kind tags, which are
/// pairwise distinct wherever two of them meet in one object.
pub proof fn lemma_literal_signatures()
    ensures
        signature("type"@) == (4int, 't', 'y'),
        signature("role"@) == (4int, 'r', 'o'),
        signature("version"@) == (7int, 'v', 'e'),
        signature("event"@) == (5int, 'e', 'v'),
        signature("payload"@) == (7int, 'p', 'a'),
        signature("nonce"@) == (5int, 'n', 'o'),
        signature("ts"@) == (2int, 't', 's'),
        signature("token"@) == (5int, 't', 'o'),
        signature("session_id"@) == (10int, 's', 'e'),
        signature("channels"@) == (8int, 'c', 'h'),
        signature("run_id"@) == (6int, 'r', 'u'),
        signature("tool"@) == (4int, 't', 'o'),
        signature("args"@) == (4int, 'a', 'r'),
        signature("span_id"@) == (7int, 's', 'p'),
        signature("result"@) == (6int, 'r', 'e'),
        signature("duration_ms"@) == (11int, 'd', 'u'),
        signature("content"@) == (7int, 'c', 'o'),
        signature("timestamp"@) == (9int, 't', 'i'),
        signature("reason"@) == (6int, 'r', 'e'),
        signature("code"@) == (4int, 'c', 'o'),
        signature("message"@) == (7int, 'm', 'e'),
        signature("connect"@) == (7int, 'c', 'o'),
        signature("auth"@) == (4int, 'a', 'u'),
        signature("connected"@) == (9int, 'c', 'o'),
        signature("subscribe"@) == (9int, 's', 'u'),
        signature("agentevent"@) == (10int, 'a', 'g'),
        signature("toolcall"@) == (8int, 't', 'o'),
        signature("toolresult"@) == (10int, 't', 'o'),
        signature("outputchunk"@) == (11int, 'o', 'u'),
        signature("presence"@) == (8int, 'p', 'r'),
        signature("tick"@) == (4int, 't', 'i'),
        signature("shutdown"@) == (8int, 's', 'h'),
        signature("error"@) == (5int, 'e', 'r'),
        signature("ping"@) == (4int, 'p', 'i'),
        signature("pong"@) == (4int, 'p', 'o'),
{
    reveal_strlit("type");
    reveal_strlit("role");
    reveal_strlit("version");
    reveal_strlit("event");
    reveal_strlit("payload");
    reveal_strlit("nonce");
    reveal_strlit("ts");
    reveal_strlit("token");
    reveal_strlit("session_id");
    reveal_strlit("channels");
    reveal_strlit("run_id");
    reveal_strlit("tool");
    reveal_strlit("args");
    reveal_strlit("span_id");
    reveal_strlit("result");
    reveal_strlit("duration_ms");
    reveal_strlit("content");
    reveal_strlit("timestamp");
    reveal_strlit("reason");
    reveal_strlit("code");
    reveal_strlit("message");
    reveal_strlit("connect");
    reveal_strlit("auth");
    reveal_strlit("connected");
    reveal_strlit("subscribe");
    reveal_strlit("agentevent");
    reveal_strlit("toolcall");
    reveal_strlit("toolresult");
    reveal_strlit("outputchunk");
    reveal_strlit("presence");
    reveal_strlit("tick");
    reveal_strlit("shutdown");
    reveal_strlit("error");
    reveal_strlit("ping");
    reveal_strlit("pong");
}

/// The member names of an object, in order.
pub open spec fn keys_of(fs: Seq<(String, JsonValue)>) -> Seq<Seq<char>> {
    Seq::new(fs.len(), |i: int| fs[i].0@)
}

/// The object that encodes `m` has exactly these members, in this order.
pub open spec fn wire_keys(m: GatewayMessage) -> Seq<Seq<char>> {
    seq!["type"@] + member_names(m)
}

fn strings_json(items: &Vec<String>) -> (r: Vec<JsonValue>)
    ensures
        all_strings(r@, items@),
        forall|i: int| 0 <= i < r@.len() ==> #[trigger] r@[i] is Str,
{
    let mut out: Vec<JsonValue> = Vec::new();
    let mut i: usize = 0;
    while i < items.len()
        invariant
            i <= items.len(),
            out@.len() == i,
            forall|j: int| 0 <= j < i ==> out@[j] == JsonValue::Str(#[trigger] items@[j]),
            forall|j: int| 0 <= j < i ==> #[trigger] out@[j] is Str,
        decreases items.len() - i,
    {
        out.push(JsonValue::Str(items[i].clone()));
        i = i + 1;
    }
    out
}

/// Writes a message as a JSON document: an object whose `"type"` member
/// names the kind and whose other members carry the fields.
pub fn message_json(m: GatewayMessage) -> (r: JsonValue)
    ensures
        encodes(r, m),
        decodable(r),
        match r {
            JsonValue::Object(fs) => keys_of(fs@) == wire_keys(m),
            _ => false,
        },
{
    let ghost m0 = m;
    let mut fs: Vec<(String, JsonValue)> = Vec::new();
    proof {
        lemma_literal_signatures();
    }
    match m {
        GatewayMessage::Connect { role, version } => {
            push_member(&mut fs, "type", JsonValue::Str("connect".to_owned()));
            push_member(&mut fs, "role", JsonValue::Str(role));
            push_member(&mut fs, "version", JsonValue::Str(version));
        },
        GatewayMessage::ConnectChallenge { event, payload } => {
            let mut ps: Vec<(String, JsonValue)> = Vec::new();
            push_member(&mut ps, "nonce", JsonValue::Str(payload.nonce));
            push_member(&mut ps, "ts", JsonValue::Number(JsonNumber::Unsigned(payload.ts)));
            push_member(&mut fs, "type", JsonValue::Str("event".to_owned()));
            push_member(&mut fs, "event", JsonValue::Str(event));
            push_member(&mut fs, "payload", JsonValue::Object(ps));
        },
        GatewayMessage::Auth { token, nonce } => {
            push_member(&mut fs, "type", JsonValue::Str("auth".to_owned()));
            push_member(&mut fs, "token", JsonValue::Str(token));
            push_member(&mut fs, "nonce", JsonValue::Str(nonce));
        },
        GatewayMessage::Connected { session_id } => {
            push_member(&mut fs, "type", JsonValue::Str("connected".to_owned()));
            push_member(&mut fs, "session_id", JsonValue::Str(session_id));
        },
        GatewayMessage::Subscribe { channels } => {
            let items = strings_json(&channels);
            push_member(&mut fs, "type", JsonValue::Str("subscribe".to_owned()));
            push_member(&mut fs, "channels", JsonValue::Array(items));
        },
        GatewayMessage::AgentEvent { run_id, event } => {
            push_member(&mut fs, "type", JsonValue::Str("agentevent".to_owned()));
            push_member(&mut fs, "run_id", JsonValue::Str(run_id));
            push_member(&mut fs, "event", event);
        },
        GatewayMessage::ToolCall { run_id, tool, args, span_id } => {
            push_member(&mut fs, "type", JsonValue::Str("toolcall".to_owned()));
            push_member(&mut fs, "run_id", JsonValue::Str(run_id));
            push_member(&mut fs, "tool", JsonValue::Str(tool));
            push_member(&mut fs, "args", args);
            push_member(&mut fs, "span_id", JsonValue::Str(span_id));
        },
        GatewayMessage::ToolResult { run_id, span_id, result, duration_ms } => {
            push_member(&mut fs, "type", JsonValue::Str("toolresult".to_owned()));
            push_member(&mut fs, "run_id", JsonValue::Str(run_id));
            push_member(&mut fs, "span_id", JsonValue::Str(span_id));
            push_member(&mut fs, "result", result);
            push_member(
                &mut fs,
                "duration_ms",
                JsonValue::Number(JsonNumber::Unsigned(duration_ms)),
            );
        },
        GatewayMessage::OutputChunk { run_id, content } => {
            push_member(&mut fs, "type", JsonValue::Str("outputchunk".to_owned()));
            push_member(&mut fs, "run_id", JsonValue::Str(run_id));
            push_member(&mut fs, "content", JsonValue::Str(content));
        },
        GatewayMessage::Presence { timestamp } => {
            push_member(&mut fs, "type", JsonValue::Str("presence".to_owned()));
            push_member(&mut fs, "timestamp", JsonValue::Str(timestamp));
        },
        GatewayMessage::Tick { timestamp } => {
            push_member(&mut fs, "type", JsonValue::Str("tick".to_owned()));
            push_member(&mut fs, "timestamp", JsonValue::Str(timestamp));
        },
        GatewayMessage::Shutdown { reason } => {
            push_member(&mut fs, "type", JsonValue::Str("shutdown".to_owned()));
            push_member(&mut fs, "reason", JsonValue::Str(reason));
        },
        GatewayMessage::Error { code, message } => {
            push_member(&mut fs, "type", JsonValue::Str("error".to_owned()));
            push_member(&mut fs, "code", JsonValue::Str(code));
            push_member(&mut fs, "message", JsonValue::Str(message));
        },
        GatewayMessage::Ping => {
            push_member(&mut fs, "type", JsonValue::Str("ping".to_owned()));
        },
        GatewayMessage::Pong => {
            push_member(&mut fs, "type", JsonValue::Str("pong".to_owned()));
        },
    }
    assert(keys_of(fs@) =~= wire_keys(m0));
    JsonValue::Object(fs)
}

/// Reads a message from the text of a frame. Yields one exactly when the
/// text is well-formed JSON that encodes a message, and then that message.
pub fn parse_message(text: &str) -> (r: Option<GatewayMessage>)
    ensures
        r is Some <==> (json_parse(text@) is Some && decodable(json_parse(text@).unwrap())),
        match r {
            Some(m) => encodes(json_parse(text@).unwrap(), m),
            None => true,
        },
{
    match parse_json(text) {
        Some(v) => decode_message(v),
        None => None,
    }
}

/// The text of a frame that carries `m`: the compact JSON of its encoding.
pub fn encode_message(m: GatewayMessage) -> (r: String)
    ensures
        exists|v: JsonValue|
            {
                &&& encodes(v, m)
                &&& v matches JsonValue::Object(fs) && keys_of(fs@) == wire_keys(m)
                &&& r@ == json_render(v)
            },
{
    let v = message_json(m);
    render_json(&v)
}

/// `a` and `b` are the same message, strings compared by their text.
pub open spec fn same_message(a: GatewayMessage, b: GatewayMessage) -> bool {
    match (a, b) {
        (
            GatewayMessage::Subscribe { channels: c1 },
            GatewayMessage::Subscribe { channels: c2 },
        ) => c1@.len() == c2@.len() && forall|i: int|
            0 <= i < c1@.len() ==> (#[trigger] c1@[i]) == c2@[i],
        _ => a == b,
    }
}

/// An encoding names one message: whatever encodes `m` decodes, and only
/// to `m`.
pub proof fn law_encoding_is_faithful(v: JsonValue, m: GatewayMessage, m2: GatewayMessage)
    requires
        encodes(v, m),
    ensures
        decodable(v),
        encodes(v, m2) ==> same_message(m, m2),
{
    lemma_literal_signatures();
    if let GatewayMessage::Subscribe { channels } = m {
        if let JsonValue::Object(fs) = v {
            if let Some(JsonValue::Array(items)) = lookup(fs@, "channels"@) {
                assert forall|i: int| 0 <= i < items@.len() implies #[trigger] items@[i] is Str by {
                    assert(items@[i] == JsonValue::Str(channels@[i]));
                }
            }
        }
    }
    if encodes(v, m2) {
        match (m, m2) {
            (
                GatewayMessage::Subscribe { channels: c1 },
                GatewayMessage::Subscribe { channels: c2 },
            ) => {
                assert forall|i: int| 0 <= i < c1@.len() implies (#[trigger] c1@[i]) == c2@[i] by {
                    let items = match v {
                        JsonValue::Object(fs) => match lookup(fs@, "channels"@) {
                            Some(JsonValue::Array(items)) => items@,
                            _ => Seq::empty(),
                        },
                        _ => Seq::empty(),
                    };
                    assert(items[i] == JsonValue::Str(c1@[i]));
                    assert(items[i] == JsonValue::Str(c2@[i]));
                }
            },
            _ => {},
        }
    }
}

} // verus!
