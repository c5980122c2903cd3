use codec_events::codecs::{
    DecoderDeserializeError, DecoderFramingError, EncoderFramingError, EncoderSerializeError,
    EncoderWriteError,
};
use codec_events::report::{ErrorTags, ERRORS_COUNTER};
use codec_events::taxonomy::{ErrorCode, ErrorStage, ErrorType};

#[test]
fn decoder_framing_scenario() {
    let r = DecoderFramingError { error: "unexpected EOF" }.emit();
    assert_eq!(r.log.message, "Failed framing bytes.");
    assert!(r.log.error.to_string().contains("unexpected EOF"));
    assert_eq!(r.log.error_code.map(|c| c.as_str()), Some("decoder_frame"));
    assert_eq!(r.log.error_type.as_str(), "parser_failed");
    assert_eq!(r.log.stage.as_str(), "processing");
    assert!(r.log.internal_log_rate_limit);
    assert_eq!(r.counter.name, "component_errors_total");
    assert_eq!(r.counter.amount, 1);
    assert_eq!(r.counter.tags.error_code.map(|c| c.as_str()), Some("decoder_frame"));
    assert_eq!(r.counter.tags.error_type.as_str(), "parser_failed");
    assert_eq!(r.counter.tags.stage.as_str(), "processing");
    assert!(r.dropped.is_none());
}

#[test]
fn encoder_serialize_scenario() {
    let err = String::from("invalid UTF-8");
    let r = EncoderSerializeError { error: &err }.emit();
    assert_eq!(r.log.message, "Failed serializing frame.");
    assert_eq!(r.log.error.as_str(), "invalid UTF-8");
    assert_eq!(r.counter.amount, 1);
    assert_eq!(r.counter.tags.error_code.map(|c| c.as_str()), Some("encoder_serialize"));
    assert_eq!(r.counter.tags.error_type.as_str(), "encoder_failed");
    assert_eq!(r.counter.tags.stage.as_str(), "sending");
    let d = r.dropped.expect("one unit is lost");
    assert_eq!(d.count, 1);
    assert_eq!(d.reason, "Failed serializing frame.");
    assert!(!d.intentional);
}

#[test]
fn encoder_write_scenario() {
    let err = String::from("broken pipe");
    let r = EncoderWriteError { error: &err, count: 5 }.emit();
    assert_eq!(r.log.message, "Failed writing bytes.");
    assert_eq!(r.log.error.as_str(), "broken pipe");
    assert_eq!(r.log.error_code, None);
    assert_eq!(r.log.error_type.as_str(), "io_failed");
    assert_eq!(r.log.stage.as_str(), "sending");
    assert_eq!(r.counter.amount, 1);
    assert_eq!(r.counter.tags.error_code, None);
    assert_eq!(r.counter.tags.error_type.as_str(), "encoder_failed");
    assert_eq!(r.counter.tags.stage.as_str(), "sending");
    let d = r.dropped.expect("five units are lost");
    assert_eq!(d.count, 5);
    assert_eq!(d.reason, "Failed writing bytes.");
    assert!(!d.intentional);
}

#[test]
fn encoder_write_zero_count_scenario() {
    let err = String::from("short write");
    let r = EncoderWriteError { error: &err, count: 0 }.emit();
    assert_eq!(r.log.message, "Failed writing bytes.");
    assert_eq!(r.log.error.as_str(), "short write");
    assert_eq!(r.log.error_type, ErrorType::IoFailed);
    assert_eq!(r.counter.amount, 1);
    assert_eq!(
        r.counter.tags,
        ErrorTags { error_code: None, error_type: ErrorType::EncoderFailed, stage: ErrorStage::Sending }
    );
    assert!(r.dropped.is_none());
}

#[test]
fn decoder_deserialize_reports_without_drop() {
    let err = String::from("missing field `message`");
    let r = DecoderDeserializeError { error: &err }.emit();
    assert_eq!(r.log.message, "Failed deserializing frame.");
    assert_eq!(r.log.error.as_str(), "missing field `message`");
    assert_eq!(r.log.error_code, Some(ErrorCode::DecoderDeserialize));
    assert_eq!(r.log.error_type, ErrorType::ParserFailed);
    assert_eq!(r.log.stage, ErrorStage::Processing);
    assert!(r.log.internal_log_rate_limit);
    assert_eq!(r.counter.tags.error_code.map(|c| c.as_str()), Some("decoder_deserialize"));
    assert_eq!(r.counter.tags.error_type, ErrorType::ParserFailed);
    assert_eq!(r.counter.amount, 1);
    assert!(r.dropped.is_none());
}

#[test]
fn encoder_framing_drops_one_unit() {
    let err = String::from("frame too large");
    let r = EncoderFramingError { error: &err }.emit();
    assert_eq!(r.log.message, "Failed framing bytes.");
    assert_eq!(r.log.error.as_str(), "frame too large");
    assert_eq!(r.log.error_code.map(|c| c.as_str()), Some("encoder_frame"));
    assert_eq!(r.log.error_type, ErrorType::EncoderFailed);
    assert_eq!(r.log.stage, ErrorStage::Sending);
    assert_eq!(r.counter.tags.error_code, Some(ErrorCode::EncoderFrame));
    assert_eq!(r.counter.tags.error_type, ErrorType::EncoderFailed);
    assert_eq!(r.counter.tags.stage, ErrorStage::Sending);
    let d = r.dropped.expect("the unit being framed is lost");
    assert_eq!(d.count, 1);
    assert_eq!(d.reason, r.log.message);
}

#[test]
fn every_variant_counts_once() {
    let e = String::from("e");
    let amounts = [
        DecoderFramingError { error: 1u8 }.emit().counter.amount,
        DecoderDeserializeError { error: &e }.emit().counter.amount,
        EncoderFramingError { error: &e }.emit().counter.amount,
        EncoderSerializeError { error: &e }.emit().counter.amount,
        EncoderWriteError { error: &e, count: 3 }.emit().counter.amount,
    ];
    assert_eq!(amounts, [1, 1, 1, 1, 1]);
    assert_eq!(EncoderWriteError { error: &e, count: 3 }.emit().counter.name, ERRORS_COUNTER);
}

#[test]
fn decoder_failures_never_drop() {
    for text in ["", "x", "a much longer underlying failure description"] {
        let s = String::from(text);
        assert!(DecoderFramingError { error: text }.emit().dropped.is_none());
        assert!(DecoderDeserializeError { error: &s }.emit().dropped.is_none());
    }
}

#[test]
fn write_drop_report_follows_count() {
    let e = String::from("io");
    for n in [0usize, 1, 2, 7, 1000, usize::MAX] {
        let r = EncoderWriteError { error: &e, count: n }.emit();
        assert_eq!(r.dropped.is_some(), n > 0);
        if let Some(d) = r.dropped {
            assert_eq!(d.count, n);
        }
    }
}

#[test]
fn tags_do_not_depend_on_error() {
    let a = String::from("first failure");
    let b = String::from("a different failure entirely");
    assert_eq!(
        EncoderSerializeError { error: &a }.emit().counter.tags,
        EncoderSerializeError { error: &b }.emit().counter.tags
    );
    assert_eq!(
        EncoderWriteError { error: &a, count: 0 }.emit().counter.tags,
        EncoderWriteError { error: &b, count: 9 }.emit().counter.tags
    );
    assert_eq!(
        DecoderFramingError { error: 1u32 }.emit().counter.tags,
        DecoderFramingError { error: 99u32 }.emit().counter.tags
    );
}

#[test]
fn taxonomy_labels() {
    assert_eq!(ErrorType::ParserFailed.as_str(), "parser_failed");
    assert_eq!(ErrorType::EncoderFailed.as_str(), "encoder_failed");
    assert_eq!(ErrorType::IoFailed.as_str(), "io_failed");
    assert_eq!(ErrorStage::Processing.as_str(), "processing");
    assert_eq!(ErrorStage::Sending.as_str(), "sending");
    assert_eq!(ErrorCode::DecoderFrame.as_str(), "decoder_frame");
    assert_eq!(ErrorCode::DecoderDeserialize.as_str(), "decoder_deserialize");
    assert_eq!(ErrorCode::EncoderFrame.as_str(), "encoder_frame");
    assert_eq!(ErrorCode::EncoderSerialize.as_str(), "encoder_serialize");
}
