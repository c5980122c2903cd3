//! The shared vocabulary that keeps logs and metrics joinable: the coarse class
//! of a failure, the pipeline phase where it happened, and the stable code of
//! each codec failure.

use vstd::prelude::*;

verus! {

/// Coarse class of a failure.
#[derive(Clone, Copy, Debug, PartialEq, Eq, Structural)]
pub enum ErrorType {
    ParserFailed,
    EncoderFailed,
    IoFailed,
}

impl ErrorType {
    /// The label under which this class appears in logs and metric tags.
    pub open spec fn label(self) -> Seq<char> {
        match self {
            ErrorType::ParserFailed => "parser_failed"@,
            ErrorType::EncoderFailed => "encoder_failed"@,
            ErrorType::IoFailed => "io_failed"@,
        }
    }

    pub fn as_str(&self) -> (r: &'static str)
        ensures
            r@ == self.label(),
    {
        match self {
            ErrorType::ParserFailed => "parser_failed",
            ErrorType::EncoderFailed => "encoder_failed",
            ErrorType::IoFailed => "io_failed",
        }
    }
}

/// Pipeline phase in which a failure happened.
#[derive(Clone, Copy, Debug, PartialEq, Eq, Structural)]
pub enum ErrorStage {
    Processing,
    Sending,
}

impl ErrorStage {
    /// The label under which this phase appears in logs and metric tags.
    pub open spec fn label(self) -> Seq<char> {
        match self {
            ErrorStage::Processing => "processing"@,
            ErrorStage::Sending => "sending"@,
        }
    }

    pub fn as_str(&self) -> (r: &'static str)
        ensures
            r@ == self.label(),
    {
        match self {
            ErrorStage::Processing => "processing",
            ErrorStage::Sending => "sending",
        }
    }
}

/// Stable machine-readable identifier of a codec failure.
#[derive(Clone, Copy, Debug, PartialEq, Eq, Structural)]
pub enum ErrorCode {
    DecoderFrame,
    DecoderDeserialize,
    EncoderFrame,
    EncoderSerialize,
}

impl ErrorCode {
    /// The label under which this code appears in logs and metric tags.
    pub open spec fn label(self) -> Seq<char> {
        match self {
            ErrorCode::DecoderFrame => "decoder_frame"@,
            ErrorCode::DecoderDeserialize => "decoder_deserialize"@,
            ErrorCode::EncoderFrame => "encoder_frame"@,
            ErrorCode::EncoderSerialize => "encoder_serialize"@,
        }
    }

    pub fn as_str(&self) -> (r: &'static str)
        ensures
            r@ == self.label(),
    {
        match self {
            ErrorCode::DecoderFrame => "decoder_frame",
            ErrorCode::DecoderDeserialize => "decoder_deserialize",
            ErrorCode::EncoderFrame => "encoder_frame",
            ErrorCode::EncoderSerialize => "encoder_serialize",
        }
    }
}

} // verus!
