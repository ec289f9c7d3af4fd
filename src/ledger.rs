//! The append-only event ledger: id assignment, batching and metadata. The
//! ledger decides; its owner performs the writes it asks for and reports
//! back, so an event leaves the pending batch only once it is durable.
use vstd::prelude::*;
use crate::json::{
    json_parse, json_render, lookup, parse_json, push_member, render_json, str_at, u64_at,
    u64_field, JsonNumber, JsonValue,
};
use crate::message::signature;
use crate::translate::{EventKind, LedgerEvent};

verus! {

/// Why the ledger refused an operation.
#[derive(Debug, Clone, Copy, PartialEq, Eq, Structural)]
pub enum LedgerError {
    /// Every id has been given out.
    IdsExhausted,
}

/// The stored name of an event kind.
pub open spec fn kind_name(k: EventKind) -> Seq<char> {
    match k {
        EventKind::AgentEvent => "AGENT_EVENT"@,
        EventKind::OutputChunk => "OUTPUT_CHUNK"@,
        EventKind::Tick => "TICK"@,
        EventKind::Presence => "PRESENCE"@,
        EventKind::Shutdown => "SHUTDOWN"@,
        EventKind::Custom => "CUSTOM"@,
    }
}

/// `v` is the stored record of event `e` under id `id`.
pub open spec fn record_of(v: JsonValue, e: LedgerEvent, id: u64) -> bool {
    match v {
        JsonValue::Object(fs) => {
            &&& u64_at(fs@, "eventId"@) == Some(id)
            &&& str_at(fs@, "runId"@) == Some(e.run_id)
            &&& (match str_at(fs@, "kind"@) {
                Some(k) => k@ == kind_name(e.kind),
                None => false,
            })
            &&& str_at(fs@, "timestamp"@) == Some(e.timestamp)
            &&& str_at(fs@, "sourceConnectionId"@) == Some(e.source_connection_id)
            &&& lookup(fs@, "payload"@) == Some(e.payload)
            &&& lookup(fs@, "redacted"@) == Some(JsonValue::Bool(e.redacted))
        },
        _ => false,
    }
}

/// The id recorded in a stored line, if it has one.
pub open spec fn line_id(line: Seq<char>) -> Option<u64> {
    match json_parse(line) {
        Some(JsonValue::Object(fs)) => u64_at(fs@, "eventId"@),
        _ => None,
    }
}

/// The largest id recorded in `lines`, or 0 where none is.
pub open spec fn max_id(lines: Seq<String>) -> u64
    decreases lines.len(),
{
    if lines.len() == 0 {
        0
    } else {
        let rest = max_id(lines.drop_last());
        match line_id(lines.last()@) {
            Some(id) => if id > rest {
                id
            } else {
                rest
            },
            None => rest,
        }
    }
}

/// What a ledger holds, as the contracts see it.
pub struct LedgerState {
    /// The last id given out; 0 before the first.
    pub last_id: nat,
    /// How many events make a full batch.
    pub batch_size: nat,
    /// The events appended and not yet durable: id and stored line.
    pub pending: Seq<(u64, Seq<char>)>,
    /// The size of what is durable.
    pub stored_bytes: nat,
    /// The metadata table.
    pub meta: Map<Seq<char>, Seq<char>>,
}

/// The state of a ledger just opened on storage whose last id is `last_id`.
pub open spec fn opened(batch_size: nat, last_id: nat, stored_bytes: nat) -> LedgerState {
    LedgerState { last_id, batch_size, pending: Seq::empty(), stored_bytes, meta: Map::empty() }
}

/// The state after appending an event stored as `line`.
pub open spec fn after_append(s: LedgerState, line: Seq<char>) -> LedgerState {
    LedgerState {
        last_id: s.last_id + 1,
        pending: s.pending.push(((s.last_id + 1) as u64, line)),
        ..s
    }
}

/// The state after appending events stored as `lines`, one by one.
pub open spec fn after_appends(s: LedgerState, lines: Seq<Seq<char>>) -> LedgerState
    decreases lines.len(),
{
    if lines.len() == 0 {
        s
    } else {
        after_append(after_appends(s, lines.drop_last()), lines.last())
    }
}

/// A flush is owed: the batch is full.
pub open spec fn flush_due(s: LedgerState) -> bool {
    s.pending.len() >= s.batch_size
}

/// The pending ids run on, one by one, up to the last id given out.
pub open spec fn ids_consecutive(s: LedgerState) -> bool {
    &&& s.pending.len() <= s.last_id
    &&& forall|i: int|
        0 <= i < s.pending.len() ==> (#[trigger] s.pending[i]).0 == s.last_id - s.pending.len()
            + i + 1
}

/// The ledger.
pub struct Ledger {
    last_id: u64,
    batch_size: usize,
    pending: Vec<(u64, String)>,
    stored_bytes: u64,
    meta: Vec<(String, String)>,
}

/// The map that a list of entries denotes, the later entry winning.
pub open spec fn entries_map(es: Seq<(String, String)>) -> Map<Seq<char>, Seq<char>>
    decreases es.len(),
{
    if es.len() == 0 {
        Map::empty()
    } else {
        entries_map(es.drop_last()).insert(es.last().0@, es.last().1@)
    }
}

impl View for Ledger {
    type V = LedgerState;

    closed spec fn view(&self) -> LedgerState {
        LedgerState {
            last_id: self.last_id as nat,
            batch_size: self.batch_size as nat,
            pending: Seq::new(self.pending@.len(), |i: int| (self.pending@[i].0, self.pending@[i].1@)),
            stored_bytes: self.stored_bytes as nat,
            meta: entries_map(self.meta@),
        }
    }
}

/// The ledger's record member names, pairwise distinct.
proof fn lemma_record_signatures()
    ensures
        signature("eventId"@) == (7int, 'e', 'v'),
        signature("runId"@) == (5int, 'r', 'u'),
        signature("kind"@) == (4int, 'k', 'i'),
        signature("timestamp"@) == (9int, 't', 'i'),
        signature("sourceConnectionId"@) == (18int, 's', 'o'),
        signature("payload"@) == (7int, 'p', 'a'),
        signature("redacted"@) == (8int, 'r', 'e'),
{
    reveal_strlit("eventId");
    reveal_strlit("runId");
    reveal_strlit("kind");
    reveal_strlit("timestamp");
    reveal_strlit("sourceConnectionId");
    reveal_strlit("payload");
    reveal_strlit("redacted");
}

fn kind_string(k: EventKind) -> (r: String)
    ensures
        r@ == kind_name(k),
{
    match k {
        EventKind::AgentEvent => "AGENT_EVENT".to_owned(),
        EventKind::OutputChunk => "OUTPUT_CHUNK".to_owned(),
        EventKind::Tick => "TICK".to_owned(),
        EventKind::Presence => "PRESENCE".to_owned(),
        EventKind::Shutdown => "SHUTDOWN".to_owned(),
        EventKind::Custom => "CUSTOM".to_owned(),
    }
}

/// The stored record of an event under a given id.
pub fn event_record(e: LedgerEvent, id: u64) -> (r: JsonValue)
    ensures
        record_of(r, e, id),
{
    let ghost e0 = e;
    proof {
        lemma_record_signatures();
    }
    let mut fs: Vec<(String, JsonValue)> = Vec::new();
    push_member(&mut fs, "eventId", JsonValue::Number(JsonNumber::Unsigned(id)));
    push_member(&mut fs, "runId", JsonValue::Str(e.run_id));
    push_member(&mut fs, "kind", JsonValue::Str(kind_string(e.kind)));
    push_member(&mut fs, "timestamp", JsonValue::Str(e.timestamp));
    push_member(&mut fs, "sourceConnectionId", JsonValue::Str(e.source_connection_id));
    push_member(&mut fs, "payload", e.payload);
    push_member(&mut fs, "redacted", JsonValue::Bool(e.redacted));
    JsonValue::Object(fs)
}

/// The id recorded in one stored line.
pub fn stored_line_id(line: &str) -> (r: Option<u64>)
    ensures
        r == line_id(line@),
{
    match parse_json(line) {
        Some(JsonValue::Object(fs)) => u64_field(&fs, "eventId"),
        _ => None,
    }
}

/// The largest id recorded in the stored lines: where a reopened ledger
/// resumes. Lines that hold no record are passed over.
pub fn last_event_id(lines: &Vec<String>) -> (r: u64)
    ensures
        r == max_id(lines@),
{
    let mut best: u64 = 0;
    let mut i: usize = 0;
    while i < lines.len()
        invariant
            i <= lines.len(),
            best == max_id(lines@.subrange(0, i as int)),
        decreases lines.len() - i,
    {
        let ghost pre = lines@.subrange(0, i as int + 1);
        assert(pre.drop_last() =~= lines@.subrange(0, i as int));
        match stored_line_id(lines[i].as_str()) {
            Some(id) => {
                if id > best {
                    best = id;
                }
            },
            None => {},
        }
        i = i + 1;
    }
    assert(lines@.subrange(0, lines.len() as int) =~= lines@);
    best
}

impl Ledger {
    /// Well-formed: the pending ids run on up to the last id given out.
    pub closed spec fn wf(&self) -> bool {
        ids_consecutive(self@)
    }

    /// Opens a ledger on storage whose largest recorded id is `last_id`
    /// (0 for empty storage) and whose size is `stored_bytes`. The next
    /// event gets `last_id + 1`.
    pub fn open(batch_size: usize, last_id: u64, stored_bytes: u64) -> (r: Ledger)
        ensures
            r.wf(),
            r@ == opened(batch_size as nat, last_id as nat, stored_bytes as nat),
    {
        let r = Ledger { last_id, batch_size, pending: Vec::new(), stored_bytes, meta: Vec::new() };
        assert(r@.pending =~= Seq::<(u64, Seq<char>)>::empty());
        r
    }

    /// The number of events appended over the ledger's life, durable or
    /// pending: ids start at 1 and have no gaps, so this is the last id.
    pub fn total_events(&self) -> (r: u64)
        ensures
            r == self@.last_id,
    {
        self.last_id
    }

    /// The size of what is durable.
    pub fn storage_size_bytes(&self) -> (r: u64)
        ensures
            r == self@.stored_bytes,
    {
        self.stored_bytes
    }

    /// How many events wait in the batch.
    pub fn pending_count(&self) -> (r: usize)
        ensures
            r == self@.pending.len(),
    {
        self.pending.len()
    }

    /// Whether the batch is full, so that it must be made durable before
    /// the append that filled it is acknowledged.
    pub fn batch_full(&self) -> (r: bool)
        ensures
            r == flush_due(self@),
    {
        self.pending.len() >= self.batch_size
    }

    /// Assigns the next id to `event`, adds its stored line to the pending
    /// batch and returns the id. The event's own id is ignored. Fails, and
    /// changes nothing, only once every id has been given out.
    pub fn append_event(&mut self, event: LedgerEvent) -> (r: Result<u64, LedgerError>)
        requires
            old(self).wf(),
        ensures
            final(self).wf(),
            old(self)@.last_id == u64::MAX ==> r == Err::<u64, LedgerError>(
                LedgerError::IdsExhausted,
            ) && final(self)@ == old(self)@,
            old(self)@.last_id < u64::MAX ==> r == Ok::<u64, LedgerError>(
                (old(self)@.last_id + 1) as u64,
            ),
            old(self)@.last_id < u64::MAX ==> exists|v: JsonValue|
                {
                    &&& record_of(v, event, (old(self)@.last_id + 1) as u64)
                    &&& final(self)@ == after_append(old(self)@, json_render(v))
                },
    {
        if self.last_id == u64::MAX {
            return Err(LedgerError::IdsExhausted);
        }
        let id = self.last_id + 1;
        let v = event_record(event, id);
        let line = render_json(&v);
        let ghost s0 = self@;
        self.pending.push((id, line));
        self.last_id = id;
        assert(self@.pending =~= s0.pending.push((id, json_render(v))));
        assert(self@ == after_append(s0, json_render(v)));
        Ok(id)
    }

    /// The pending batch as the text to write: one stored line per event,
    /// each ended by a newline, in order of append.
    pub fn pending_text(&self) -> (r: String)
        ensures
            r@ == batch_text(self@.pending),
    {
        let mut out = String::new();
        let mut i: usize = 0;
        while i < self.pending.len()
            invariant
                i <= self.pending.len(),
                out@ == batch_text(self@.pending.subrange(0, i as int)),
            decreases self.pending.len() - i,
        {
            let ghost pre = self@.pending.subrange(0, i as int + 1);
            assert(pre.drop_last() =~= self@.pending.subrange(0, i as int));
            out.append(self.pending[i].1.as_str());
            out.append("\n");
            proof {
                reveal_strlit("\n");
            }
            i = i + 1;
        }
        assert(self@.pending.subrange(0, self.pending.len() as int) =~= self@.pending);
        out
    }

    /// Sets a metadata entry; a later write of the same key wins.
    pub fn set_meta(&mut self, key: &str, value: &str)
        requires
            old(self).wf(),
        ensures
            final(self).wf(),
            final(self)@ == (LedgerState {
                meta: old(self)@.meta.insert(key@, value@),
                ..old(self)@
            }),
    {
        let ghost s0 = self@;
        self.meta.push((key.to_owned(), value.to_owned()));
        assert(self.meta@.drop_last() =~= old(self).meta@);
        assert(self@.pending =~= s0.pending);
    }

    /// The value of a metadata entry.
    pub fn get_meta(&self, key: &str) -> (r: Option<String>)
        ensures
            match r {
                Some(v) => self@.meta.contains_key(key@) && self@.meta[key@] == v@,
                None => !self@.meta.contains_key(key@),
            },
    {
        let k = key.to_owned();
        let mut i: usize = self.meta.len();
        assert(self.meta@.subrange(0, i as int) =~= self.meta@);
        while i > 0
            invariant
                i <= self.meta.len(),
                k@ == key@,
                entries_map(self.meta@).contains_key(key@) == entries_map(
                    self.meta@.subrange(0, i as int),
                ).contains_key(key@),
                entries_map(self.meta@).contains_key(key@) ==> entries_map(self.meta@)[key@]
                    == entries_map(self.meta@.subrange(0, i as int))[key@],
            decreases i,
        {
            let ghost pre = self.meta@.subrange(0, i as int);
            assert(pre.drop_last() =~= self.meta@.subrange(0, i - 1));
            if self.meta[i - 1].0 == k {
                return Some(self.meta[i - 1].1.clone());
            }
            i = i - 1;
        }
        None
    }

    /// The metadata table as a JSON object, one member per key.
    pub fn meta_record(&self) -> (r: JsonValue)
        ensures
            match r {
                JsonValue::Object(fs) => forall|k: Seq<char>|
                    match #[trigger] lookup(fs@, k) {
                        Some(JsonValue::Str(v)) => self@.meta.contains_key(k) && self@.meta[k]
                            == v@,
                        Some(_) => false,
                        None => !self@.meta.contains_key(k),
                    },
                _ => false,
            },
    {
        let mut fs: Vec<(String, JsonValue)> = Vec::new();
        let mut i: usize = 0;
        while i < self.meta.len()
            invariant
                i <= self.meta.len(),
                forall|k: Seq<char>|
                    match #[trigger] lookup(fs@, k) {
                        Some(JsonValue::Str(v)) => entries_map(
                            self.meta@.subrange(0, i as int),
                        ).contains_key(k) && entries_map(self.meta@.subrange(0, i as int))[k]
                            == v@,
                        Some(_) => false,
                        None => !entries_map(self.meta@.subrange(0, i as int)).contains_key(k),
                    },
            decreases self.meta.len() - i,
        {
            let ghost pre = self.meta@.subrange(0, i as int + 1);
            assert(pre.drop_last() =~= self.meta@.subrange(0, i as int));
            let v = self.meta[i].1.clone();
            push_member(&mut fs, self.meta[i].0.as_str(), JsonValue::Str(v));
            i = i + 1;
        }
        assert(self.meta@.subrange(0, self.meta.len() as int) =~= self.meta@);
        JsonValue::Object(fs)
    }

    /// The metadata table as the text to store.
    pub fn meta_text(&self) -> (r: String)
        ensures
            exists|v: JsonValue|
                {
                    &&& r@ == json_render(v)
                    &&& v matches JsonValue::Object(fs) && forall|k: Seq<char>|
                        match #[trigger] lookup(fs@, k) {
                            Some(JsonValue::Str(x)) => self@.meta.contains_key(k)
                                && self@.meta[k] == x@,
                            Some(_) => false,
                            None => !self@.meta.contains_key(k),
                        }
                },
    {
        let v = self.meta_record();
        render_json(&v)
    }

    /// Records that the pending batch was written durably, taking
    /// `written_bytes`: the batch empties and the stored size grows by that
    /// much. Where the write failed, the owner does not call this, and the
    /// batch stays for the next flush.
    pub fn flush_done(&mut self, written_bytes: u64)
        requires
            old(self).wf(),
            old(self)@.stored_bytes + written_bytes <= u64::MAX,
        ensures
            final(self).wf(),
            final(self)@ == (LedgerState {
                pending: Seq::empty(),
                stored_bytes: (old(self)@.stored_bytes + written_bytes) as nat,
                ..old(self)@
            }),
    {
        self.pending = Vec::new();
        self.stored_bytes = self.stored_bytes + written_bytes;
        assert(self@.pending =~= Seq::<(u64, Seq<char>)>::empty());
    }
}

/// The text written for a batch: each line followed by a newline.
pub open spec fn batch_text(p: Seq<(u64, Seq<char>)>) -> Seq<char>
    decreases p.len(),
{
    if p.len() == 0 {
        Seq::empty()
    } else {
        batch_text(p.drop_last()) + p.last().1 + "\n"@
    }
}

/// Appending counts: on a ledger opened empty, after any sequence of
/// appends, with no flush in between, the number of events is the number
/// of appends, after each of them; and all of them are pending.
pub proof fn law_total_counts_appends(batch_size: nat, stored_bytes: nat, lines: Seq<Seq<char>>)
    ensures
        forall|k: int|
            0 <= k <= lines.len() ==> {
                let s = #[trigger] after_appends(opened(batch_size, 0, stored_bytes), lines.take(k));
                s.last_id == k && s.pending.len() == k
            },
    decreases lines.len(),
{
    if lines.len() > 0 {
        law_total_counts_appends(batch_size, stored_bytes, lines.drop_last());
        assert forall|k: int| 0 <= k <= lines.len() implies {
            let s = #[trigger] after_appends(opened(batch_size, 0, stored_bytes), lines.take(k));
            s.last_id == k && s.pending.len() == k
        } by {
            if k < lines.len() {
                assert(lines.take(k) =~= lines.drop_last().take(k));
            } else {
                let s0 = opened(batch_size, 0, stored_bytes);
                let prev = lines.drop_last();
                assert(lines.take(k) =~= lines);
                assert(prev.take(k - 1) =~= prev);
                let p = after_appends(s0, prev.take(k - 1));
                assert(p.last_id == k - 1 && p.pending.len() == k - 1);
                assert(after_appends(s0, lines) == after_append(after_appends(s0, prev), lines.last()));
            }
        }
    } else {
        assert forall|k: int| 0 <= k <= lines.len() implies {
            let s = #[trigger] after_appends(opened(batch_size, 0, stored_bytes), lines.take(k));
            s.last_id == k && s.pending.len() == k
        } by {
            assert(lines.take(k) =~= Seq::<Seq<char>>::empty());
        }
    }
}

proof fn lemma_max_id_bounds(lines: Seq<String>, i: int)
    requires
        0 <= i < lines.len(),
        line_id(lines[i]@) is Some,
    ensures
        line_id(lines[i]@).unwrap() <= max_id(lines),
    decreases lines.len(),
{
    if i < lines.len() - 1 {
        lemma_max_id_bounds(lines.drop_last(), i);
    }
}

/// Reopening resumes the ids: a ledger opened on stored lines whose largest
/// id is `max_id(lines)` gives its next event that id plus one, which no
/// stored line holds.
pub proof fn law_reopen_resumes(
    batch_size: nat,
    stored_bytes: nat,
    lines: Seq<String>,
    line: Seq<char>,
)
    requires
        max_id(lines) < u64::MAX,
    ensures
        ({
            let s = after_append(opened(batch_size, max_id(lines) as nat, stored_bytes), line);
            &&& s.pending.last().0 == max_id(lines) + 1
            &&& forall|i: int|
                0 <= i < lines.len() && (#[trigger] line_id(lines[i]@)) is Some ==> line_id(
                    lines[i]@,
                ).unwrap() < s.pending.last().0
        }),
{
    assert forall|i: int|
        0 <= i < lines.len() && (#[trigger] line_id(lines[i]@)) is Some implies line_id(
            lines[i]@,
        ).unwrap() <= max_id(lines) by {
        lemma_max_id_bounds(lines, i);
    }
}

/// A batch fills after exactly `batch_size` appends: on a ledger with
/// nothing pending, a flush is not yet owed after fewer appends, and is
/// owed after that many.
pub proof fn law_batch_fills(batch_size: nat, last_id: nat, stored_bytes: nat, lines: Seq<Seq<char>>)
    requires
        lines.len() <= batch_size,
    ensures
        flush_due(after_appends(opened(batch_size, last_id, stored_bytes), lines)) <==> lines.len()
            == batch_size,
    decreases lines.len(),
{
    lemma_pending_len(opened(batch_size, last_id, stored_bytes), lines);
}

proof fn lemma_pending_len(s: LedgerState, lines: Seq<Seq<char>>)
    ensures
        after_appends(s, lines).pending.len() == s.pending.len() + lines.len(),
        after_appends(s, lines).batch_size == s.batch_size,
    decreases lines.len(),
{
    if lines.len() > 0 {
        lemma_pending_len(s, lines.drop_last());
    }
}

} // verus!
