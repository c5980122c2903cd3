//! What holds of every emission, stated over the contract that each event's
//! `emit` meets.

use vstd::prelude::*;
use crate::report::{reports, Emission, EventKind, ERRORS_COUNTER};

verus! {

/// Every emission makes one log record, carrying the failure's message and
/// error, and increments the error counter by exactly one.
pub proof fn one_record_one_increment<E>(
    r: Emission<E>,
    kind: EventKind,
    error: E,
    count: nat,
)
    requires
        reports(r, kind, error, count),
    ensures
        r.log.message@ == kind.message(),
        r.log.error == error,
        r.counter.name@ == ERRORS_COUNTER@,
        r.counter.amount == 1,
{
}

/// A decoding failure never reports dropped units, whatever its error.
pub proof fn decoder_failures_drop_nothing<E>(
    r: Emission<E>,
    kind: EventKind,
    error: E,
    count: nat,
)
    requires
        reports(r, kind, error, count),
        kind == EventKind::DecoderFraming || kind == EventKind::DecoderDeserialize,
    ensures
        r.dropped.is_none(),
{
}

/// A failure to frame or to serialize on the encoding side reports exactly one
/// dropped unit, for the reason that its log record gives.
pub proof fn encoder_failures_drop_one<E>(
    r: Emission<E>,
    kind: EventKind,
    error: E,
    count: nat,
)
    requires
        reports(r, kind, error, count),
        kind == EventKind::EncoderFraming || kind == EventKind::EncoderSerialize,
    ensures
        r.dropped.is_some(),
        r.dropped.unwrap().count == 1,
        r.dropped.unwrap().reason@ == r.log.message@,
        !r.dropped.unwrap().intentional,
{
}

/// A write failure reports dropped units if and only if its count is positive,
/// and then reports exactly that count.
pub proof fn write_failure_drops_its_count<E>(
    r: Emission<E>,
    error: E,
    count: nat,
)
    requires
        reports(r, EventKind::EncoderWrite, error, count),
    ensures
        r.dropped.is_some() <==> count > 0,
        r.dropped.is_some() ==> r.dropped.unwrap().count == count,
        r.dropped.is_some() ==> r.dropped.unwrap().reason@ == r.log.message@,
{
}

/// Two emissions of the same kind carry the same counter tags and the same
/// log taxonomy, whatever their errors and counts.
pub proof fn tags_depend_on_kind_alone<E, F>(
    r1: Emission<E>,
    r2: Emission<F>,
    kind: EventKind,
    error1: E,
    error2: F,
    count1: nat,
    count2: nat,
)
    requires
        reports(r1, kind, error1, count1),
        reports(r2, kind, error2, count2),
    ensures
        r1.counter.tags == r2.counter.tags,
        r1.counter.name@ == r2.counter.name@,
        r1.counter.amount == r2.counter.amount,
        r1.log.error_code == r2.log.error_code,
        r1.log.error_type == r2.log.error_type,
        r1.log.stage == r2.log.stage,
{
}

} // verus!
