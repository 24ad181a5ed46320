//! The event processor's per-event logic: signature check, enrichment of
//! the fetched transaction, the quality decision, and the single fate every
//! consumed event ends in. The queue receive, the RPC calls and the
//! notification delivery happen outside the crate; everything decided here
//! is a function of the values they hand back.

use crate::codecs::base58_decode;
use crate::codecs::base58_decoded;
use crate::enrich::enrich;
use crate::enrich::is_enrichment_of;
use crate::enrich::TransactionDetail;
use crate::event::LogMessage;
use crate::fetch::fetch_from_outcomes;
use crate::fetch::fetch_result_spec;
use crate::fetch::RetryPolicy;
use crate::filter::decide;
use crate::filter::Decision;
use crate::filter::ACCEPT_THRESHOLD_LAMPORTS;
use vstd::prelude::*;

verus! {

/// Byte length of a transaction signature.
pub const SIGNATURE_BYTES: usize = 64;

/// True when `s` parses as a transaction signature: its base58 decoding
/// exists and holds exactly the signature's byte length.
pub open spec fn sig_valid_spec(s: Seq<char>) -> bool {
    base58_decoded(s) matches Some(b) && b.len() == SIGNATURE_BYTES as int
}

/// Whether an event's signature text parses as a transaction signature; an
/// event whose text does not is skipped, not fatal.
pub fn check_signature(s: &str) -> (r: bool)
    ensures
        r == sig_valid_spec(s@),
{
    match base58_decode(s) {
        Some(bytes) => bytes.len() == SIGNATURE_BYTES,
        None => false,
    }
}

/// The fate of one consumed event: exactly one per event.
#[derive(Debug, Clone, PartialEq)]
pub enum EventFate {
    /// The signature text did not parse: the event is skipped.
    InvalidSignature,
    /// The fetch spent its budget without an answer: the event is dropped,
    /// and no decision is produced.
    Dropped,
    /// The decision rejected the event: logged for observability, never
    /// notified.
    Rejected(Decision),
    /// The decision accepted the event: notify once with these facts.
    Notify(Decision),
}

/// The fate an event must meet, given what its fetch returned.
pub open spec fn fate_spec(
    msg: LogMessage,
    fetched: Option<TransactionDetail>,
    f: EventFate,
) -> bool {
    if !sig_valid_spec(msg.signature@) {
        f == EventFate::InvalidSignature
    } else {
        match fetched {
            None => f == EventFate::Dropped,
            Some(d) => match f {
                EventFate::Rejected(dec) => !dec.accepted && is_enrichment_of(dec.result, d)
                    && dec.result.spend_lamports < ACCEPT_THRESHOLD_LAMPORTS,
                EventFate::Notify(dec) => dec.accepted && is_enrichment_of(dec.result, d)
                    && dec.result.spend_lamports >= ACCEPT_THRESHOLD_LAMPORTS,
                _ => false,
            },
        }
    }
}

/// Drives one consumed event to its fate, given what the fetch returned:
/// parse failure skips it, a missing transaction drops it, and otherwise the
/// enrichment facts are derived and the quality rule decides.
pub fn process_event(msg: &LogMessage, fetched: Option<TransactionDetail>) -> (f: EventFate)
    ensures
        fate_spec(*msg, fetched, f),
{
    if !check_signature(msg.signature.as_str()) {
        return EventFate::InvalidSignature;
    }
    match fetched {
        None => EventFate::Dropped,
        Some(d) => {
            let result = enrich(&d);
            let decision = decide(result);
            if decision.accepted {
                EventFate::Notify(decision)
            } else {
                EventFate::Rejected(decision)
            }
        },
    }
}

/// Drives one consumed event end to end against a pre-listed sequence of
/// fetch outcomes: the retry loop runs exactly as live, and the fate follows
/// from what it reports.
pub fn process_event_with_outcomes(
    msg: &LogMessage,
    outcomes: Vec<Option<TransactionDetail>>,
    policy: RetryPolicy,
) -> (f: EventFate)
    requires
        1 <= policy.max_attempts,
        outcomes@.len() >= policy.max_attempts,
    ensures
        fate_spec(*msg, fetch_result_spec(outcomes@, policy.max_attempts as int), f),
{
    if !check_signature(msg.signature.as_str()) {
        return EventFate::InvalidSignature;
    }
    let fetched = fetch_from_outcomes(outcomes, policy);
    process_event(msg, fetched.0)
}

/// A notification is owed exactly to an accepted event: a fate carries
/// `Notify` when and only when the signature parsed, the fetch returned the
/// transaction, and the fee payer's spend derived from it reaches the
/// threshold. An invalid, dropped or rejected event is never notified, and
/// one event has one fate, so no event is notified twice.
pub proof fn lemma_notify_iff_accepted(
    msg: LogMessage,
    fetched: Option<TransactionDetail>,
    f: EventFate,
)
    requires
        fate_spec(msg, fetched, f),
    ensures
        (f matches EventFate::Notify(dec)) <==> (sig_valid_spec(msg.signature@)
            && fetched is Some && crate::enrich::spend_spec(
            fetched->Some_0.pre_balances@,
            fetched->Some_0.post_balances@,
        ) >= ACCEPT_THRESHOLD_LAMPORTS),
{
}

/// Processes a queue of consumed events in receipt order, strictly
/// sequentially: every event gets exactly one fate, in order, none is
/// processed twice and none is lost.
pub fn process_batch(events: Vec<(LogMessage, Option<TransactionDetail>)>) -> (fates: Vec<
    EventFate,
>)
    ensures
        fates@.len() == events@.len(),
        forall|i: int|
            0 <= i < events@.len() ==> fate_spec(events@[i].0, events@[i].1, fates@[i]),
{
    let ghost orig: Seq<(LogMessage, Option<TransactionDetail>)> = events@;
    let mut rest = events;
    let mut fates: Vec<EventFate> = Vec::new();
    while rest.len() > 0
        invariant
            orig == events@,
            orig.len() == fates@.len() + rest@.len(),
            rest@ == orig.skip(fates@.len() as int),
            forall|i: int|
                0 <= i < fates@.len() ==> fate_spec(orig[i].0, orig[i].1, fates@[i]),
        decreases rest@.len(),
    {
        let ghost k: int = fates@.len() as int;
        let ghost prev_rest: Seq<(LogMessage, Option<TransactionDetail>)> = rest@;
        let item = rest.remove(0);
        assert(prev_rest[0] == orig[k]);
        assert(prev_rest.remove(0) =~= orig.skip(k + 1));
        let f = process_event(&item.0, item.1);
        fates.push(f);
    }
    fates
}

} // verus!
