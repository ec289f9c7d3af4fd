//! Recording one inbound message: translate it and append it to the ledger.
use vstd::prelude::*;
use crate::json::{json_render, JsonValue};
use crate::ledger::{after_append, record_of, Ledger, LedgerError};
use crate::message::GatewayMessage;
use crate::translate::{kind_of, translate, LedgerEvent};

verus! {

/// Translates `msg`, stamps it with the connection it came from, and
/// appends it to the ledger, returning the id it got. The ledger changes by
/// exactly that one append.
pub fn record_message(
    ledger: &mut Ledger,
    run_id: &str,
    connection_id: &str,
    msg: GatewayMessage,
    redact: bool,
) -> (r: Result<u64, LedgerError>)
    requires
        old(ledger).wf(),
    ensures
        final(ledger).wf(),
        old(ledger)@.last_id == u64::MAX ==> r == Err::<u64, LedgerError>(
            LedgerError::IdsExhausted,
        ) && final(ledger)@ == old(ledger)@,
        old(ledger)@.last_id < u64::MAX ==> r == Ok::<u64, LedgerError>(
            (old(ledger)@.last_id + 1) as u64,
        ),
        old(ledger)@.last_id < u64::MAX ==> exists|e: LedgerEvent, v: JsonValue|
            {
                &&& e.kind == kind_of(msg)
                &&& e.run_id@ == run_id@
                &&& e.source_connection_id@ == connection_id@
                &&& e.redacted == redact
                &&& record_of(v, e, (old(ledger)@.last_id + 1) as u64)
                &&& final(ledger)@ == after_append(old(ledger)@, json_render(v))
            },
{
    let ghost kind = kind_of(msg);
    let mut event = translate(run_id, msg, redact);
    event.source_connection_id = connection_id.to_owned();
    let ghost e = event;
    let r = ledger.append_event(event);
    assert(e.kind == kind);
    r
}

} // verus!
