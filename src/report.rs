//! What one emission reports, and what each kind of codec failure must report.

use vstd::prelude::*;
use crate::taxonomy::{ErrorCode, ErrorStage, ErrorType};

verus! {

/// Name of the counter that every emission increments.
pub const ERRORS_COUNTER: &'static str = "component_errors_total";

/// A structured record for the log sink.
#[derive(Debug)]
pub struct LogRecord<E> {
    pub message: &'static str,
    /// The underlying failure, rendered by the log sink.
    pub error: E,
    pub error_code: Option<ErrorCode>,
    pub error_type: ErrorType,
    pub stage: ErrorStage,
    /// Asks the log sink to suppress repeats of this line.
    pub internal_log_rate_limit: bool,
}

/// The tags that join a counter increment to its log record.
#[derive(Clone, Copy, Debug, PartialEq, Eq, Structural)]
pub struct ErrorTags {
    pub error_code: Option<ErrorCode>,
    pub error_type: ErrorType,
    pub stage: ErrorStage,
}

/// An increment of a named counter by an amount.
#[derive(Debug)]
pub struct CounterIncrement {
    pub name: &'static str,
    pub amount: u64,
    pub tags: ErrorTags,
}

/// "This many units were discarded, for this reason."
#[derive(Debug)]
pub struct DropReport {
    pub count: usize,
    pub reason: &'static str,
    /// False: the loss came from a failure, not from a policy such as sampling.
    pub intentional: bool,
}

/// Everything that one emission of an event hands to the sinks.
#[derive(Debug)]
pub struct Emission<E> {
    pub log: LogRecord<E>,
    pub counter: CounterIncrement,
    pub dropped: Option<DropReport>,
}

/// The kinds of codec failure.
#[derive(Clone, Copy, Debug, PartialEq, Eq, Structural)]
pub enum EventKind {
    DecoderFraming,
    DecoderDeserialize,
    EncoderFraming,
    EncoderSerialize,
    EncoderWrite,
}

impl EventKind {
    /// The log message, also the reason of any drop report.
    pub open spec fn message(self) -> Seq<char> {
        match self {
            EventKind::DecoderFraming => "Failed framing bytes."@,
            EventKind::DecoderDeserialize => "Failed deserializing frame."@,
            EventKind::EncoderFraming => "Failed framing bytes."@,
            EventKind::EncoderSerialize => "Failed serializing frame."@,
            EventKind::EncoderWrite => "Failed writing bytes."@,
        }
    }

    /// The error code, which write failures do not carry.
    pub open spec fn error_code(self) -> Option<ErrorCode> {
        match self {
            EventKind::DecoderFraming => Some(ErrorCode::DecoderFrame),
            EventKind::DecoderDeserialize => Some(ErrorCode::DecoderDeserialize),
            EventKind::EncoderFraming => Some(ErrorCode::EncoderFrame),
            EventKind::EncoderSerialize => Some(ErrorCode::EncoderSerialize),
            EventKind::EncoderWrite => None,
        }
    }

    pub open spec fn stage(self) -> ErrorStage {
        match self {
            EventKind::DecoderFraming | EventKind::DecoderDeserialize => ErrorStage::Processing,
            _ => ErrorStage::Sending,
        }
    }

    /// The error type of the log record.
    pub open spec fn log_error_type(self) -> ErrorType {
        match self {
            EventKind::DecoderFraming | EventKind::DecoderDeserialize => ErrorType::ParserFailed,
            EventKind::EncoderFraming | EventKind::EncoderSerialize => ErrorType::EncoderFailed,
            EventKind::EncoderWrite => ErrorType::IoFailed,
        }
    }

    /// The tags of the counter increment. A write failure is counted as an
    /// encoder failure although its log record calls it an I/O failure.
    pub open spec fn counter_tags(self) -> ErrorTags {
        ErrorTags {
            error_code: self.error_code(),
            error_type: match self {
                EventKind::DecoderFraming | EventKind::DecoderDeserialize => ErrorType::ParserFailed,
                _ => ErrorType::EncoderFailed,
            },
            stage: self.stage(),
        }
    }

    /// How many units a failure of this kind discards, given the count that a
    /// write failure carries.
    pub open spec fn units_lost(self, count: nat) -> nat {
        match self {
            EventKind::DecoderFraming | EventKind::DecoderDeserialize => 0,
            EventKind::EncoderFraming | EventKind::EncoderSerialize => 1,
            EventKind::EncoderWrite => count,
        }
    }
}

/// `r` is the log record of a failure of kind `kind` with underlying error `error`.
pub open spec fn logs<E>(r: LogRecord<E>, kind: EventKind, error: E) -> bool {
    &&& r.message@ == kind.message()
    &&& r.error == error
    &&& r.error_code == kind.error_code()
    &&& r.error_type == kind.log_error_type()
    &&& r.stage == kind.stage()
    &&& r.internal_log_rate_limit
}

/// `c` is one increment of the error counter, tagged for kind `kind`.
pub open spec fn counts(c: CounterIncrement, kind: EventKind) -> bool {
    &&& c.name@ == ERRORS_COUNTER@
    &&& c.amount == 1
    &&& c.tags == kind.counter_tags()
}

/// `d` reports the units lost, if any, by a failure of kind `kind` that carries `count`.
pub open spec fn drops(d: Option<DropReport>, kind: EventKind, count: nat) -> bool {
    match d {
        None => kind.units_lost(count) == 0,
        Some(d) => {
            &&& kind.units_lost(count) > 0
            &&& d.count == kind.units_lost(count)
            &&& d.reason@ == kind.message()
            &&& !d.intentional
        },
    }
}

/// `r` is exactly what a failure of kind `kind`, with underlying error `error`
/// and carried count `count`, reports.
pub open spec fn reports<E>(r: Emission<E>, kind: EventKind, error: E, count: nat) -> bool {
    &&& logs(r.log, kind, error)
    &&& counts(r.counter, kind)
    &&& drops(r.dropped, kind, count)
}

} // verus!
