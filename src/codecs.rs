//! The events that the codec layer emits when framing, (de)serializing or
//! writing fails. Each is consumed by `emit`, which builds what it reports.

use vstd::prelude::*;
use crate::report::{
    reports, CounterIncrement, DropReport, Emission, ErrorTags, EventKind, LogRecord,
    ERRORS_COUNTER,
};
use crate::taxonomy::{ErrorCode, ErrorStage, ErrorType};

verus! {

/// Locating or extracting a frame in raw input bytes failed. Nothing that
/// was accepted before is lost.
#[derive(Debug)]
pub struct DecoderFramingError<E> {
    pub error: E,
}

impl<E> DecoderFramingError<E> {
    pub fn emit(self) -> (r: Emission<E>)
        ensures
            reports(r, EventKind::DecoderFraming, self.error, 0),
    {
        let log = LogRecord {
            message: "Failed framing bytes.",
            error: self.error,
            error_code: Some(ErrorCode::DecoderFrame),
            error_type: ErrorType::ParserFailed,
            stage: ErrorStage::Processing,
            internal_log_rate_limit: true,
        };
        let counter = CounterIncrement {
            name: ERRORS_COUNTER,
            amount: 1,
            tags: ErrorTags {
                error_code: Some(ErrorCode::DecoderFrame),
                error_type: ErrorType::ParserFailed,
                stage: ErrorStage::Processing,
            },
        };
        Emission { log, counter, dropped: None }
    }
}

/// A complete frame could not be deserialized into a record. Nothing that
/// was accepted before is lost.
#[derive(Debug)]
pub struct DecoderDeserializeError<'a, E> {
    pub error: &'a E,
}

impl<'a, E> DecoderDeserializeError<'a, E> {
    pub fn emit(self) -> (r: Emission<&'a E>)
        ensures
            reports(r, EventKind::DecoderDeserialize, self.error, 0),
    {
        let log = LogRecord {
            message: "Failed deserializing frame.",
            error: self.error,
            error_code: Some(ErrorCode::DecoderDeserialize),
            error_type: ErrorType::ParserFailed,
            stage: ErrorStage::Processing,
            internal_log_rate_limit: true,
        };
        let counter = CounterIncrement {
            name: ERRORS_COUNTER,
            amount: 1,
            tags: ErrorTags {
                error_code: Some(ErrorCode::DecoderDeserialize),
                error_type: ErrorType::ParserFailed,
                stage: ErrorStage::Processing,
            },
        };
        Emission { log, counter, dropped: None }
    }
}

/// Delimiting outbound bytes into a frame failed; the unit being framed is lost.
#[derive(Debug)]
pub struct EncoderFramingError<'a, E> {
    pub error: &'a E,
}

impl<'a, E> EncoderFramingError<'a, E> {
    pub fn emit(self) -> (r: Emission<&'a E>)
        ensures
            reports(r, EventKind::EncoderFraming, self.error, 0),
    {
        let reason = "Failed framing bytes.";
        let log = LogRecord {
            message: reason,
            error: self.error,
            error_code: Some(ErrorCode::EncoderFrame),
            error_type: ErrorType::EncoderFailed,
            stage: ErrorStage::Sending,
            internal_log_rate_limit: true,
        };
        let counter = CounterIncrement {
            name: ERRORS_COUNTER,
            amount: 1,
            tags: ErrorTags {
                error_code: Some(ErrorCode::EncoderFrame),
                error_type: ErrorType::EncoderFailed,
                stage: ErrorStage::Sending,
            },
        };
        Emission { log, counter, dropped: Some(DropReport { count: 1, reason, intentional: false }) }
    }
}

/// Serializing a record into bytes failed; that record is lost.
#[derive(Debug)]
pub struct EncoderSerializeError<'a, E> {
    pub error: &'a E,
}

impl<'a, E> EncoderSerializeError<'a, E> {
    pub fn emit(self) -> (r: Emission<&'a E>)
        ensures
            reports(r, EventKind::EncoderSerialize, self.error, 0),
    {
        let reason = "Failed serializing frame.";
        let log = LogRecord {
            message: reason,
            error: self.error,
            error_code: Some(ErrorCode::EncoderSerialize),
            error_type: ErrorType::EncoderFailed,
            stage: ErrorStage::Sending,
            internal_log_rate_limit: true,
        };
        let counter = CounterIncrement {
            name: ERRORS_COUNTER,
            amount: 1,
            tags: ErrorTags {
                error_code: Some(ErrorCode::EncoderSerialize),
                error_type: ErrorType::EncoderFailed,
                stage: ErrorStage::Sending,
            },
        };
        Emission { log, counter, dropped: Some(DropReport { count: 1, reason, intentional: false }) }
    }
}

/// Writing already-encoded bytes to the sink failed; `count` units were in
/// the failed write.
#[derive(Debug)]
pub struct EncoderWriteError<'a, E> {
    pub error: &'a E,
    pub count: usize,
}

impl<'a, E> EncoderWriteError<'a, E> {
    pub fn emit(self) -> (r: Emission<&'a E>)
        ensures
            reports(r, EventKind::EncoderWrite, self.error, self.count as nat),
    {
        let reason = "Failed writing bytes.";
        let log = LogRecord {
            message: reason,
            error: self.error,
            error_code: None,
            error_type: ErrorType::IoFailed,
            stage: ErrorStage::Sending,
            internal_log_rate_limit: true,
        };
        let counter = CounterIncrement {
            name: ERRORS_COUNTER,
            amount: 1,
            tags: ErrorTags {
                error_code: None,
                error_type: ErrorType::EncoderFailed,
                stage: ErrorStage::Sending,
            },
        };
        let dropped = if self.count > 0 {
            Some(DropReport { count: self.count, reason, intentional: false })
        } else {
            None
        };
        Emission { log, counter, dropped }
    }
}

} // verus!
