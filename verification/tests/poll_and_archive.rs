use aeron_glide::archive::{SourceLocation, NULL_LENGTH, NULL_POSITION, RecordingDescriptor};
use aeron_glide::poll::{claim_committed, controlled_fragment_code};
use aeron_glide::text::{decimal_string, signed_decimal_string, str_equals};
use aeron_glide::{ControlledAction, PollAction};

#[test]
fn controlled_action_codes_match_aeron() {
    assert_eq!(ControlledAction::Abort.code(), 0);
    assert_eq!(ControlledAction::Break.code(), 1);
    assert_eq!(ControlledAction::Commit.code(), 2);
    assert_eq!(ControlledAction::Continue.code(), 3);
}

#[test]
fn unit_handler_result_means_continue() {
    assert_eq!(().into_action(), ControlledAction::Continue);
    assert_eq!(ControlledAction::Break.into_action(), ControlledAction::Break);
    assert_eq!(ControlledAction::Abort.into_action(), ControlledAction::Abort);
}

#[test]
fn missing_controlled_handler_aborts() {
    assert_eq!(controlled_fragment_code(None), 0);
    assert_eq!(controlled_fragment_code(Some(ControlledAction::Commit)), 2);
    assert_eq!(controlled_fragment_code(Some(ControlledAction::Continue)), 3);
}

#[test]
fn missing_claim_handler_aborts() {
    assert!(!claim_committed(None));
    assert!(claim_committed(Some(true)));
    assert!(!claim_committed(Some(false)));
}

#[test]
fn source_location_codes() {
    assert_eq!(SourceLocation::Local.code(), 0);
    assert_eq!(SourceLocation::Remote.code(), 1);
}

#[test]
fn null_sentinels() {
    assert_eq!(NULL_POSITION, i64::MIN);
    assert_eq!(NULL_LENGTH, i64::MIN);
}

#[test]
fn recording_descriptor_clones_fields() {
    let d = RecordingDescriptor {
        control_session_id: 1,
        correlation_id: 2,
        recording_id: 3,
        start_timestamp: 4,
        stop_timestamp: 5,
        start_position: 6,
        stop_position: 7,
        initial_term_id: 8,
        segment_file_length: 9,
        term_buffer_length: 10,
        mtu_length: 11,
        session_id: 12,
        stream_id: 13,
        stripped_channel: "aeron:ipc".to_string(),
        original_channel: "aeron:ipc?alias=a".to_string(),
    };
    let c = d.clone();
    assert_eq!(c.recording_id, 3);
    assert_eq!(c.original_channel, "aeron:ipc?alias=a");
}

#[test]
fn decimal_rendering() {
    assert_eq!(decimal_string(0), "0");
    assert_eq!(decimal_string(9), "9");
    assert_eq!(decimal_string(10), "10");
    assert_eq!(decimal_string(1234567890), "1234567890");
    assert_eq!(signed_decimal_string(-1), "-1");
    assert_eq!(signed_decimal_string(0), "0");
    assert_eq!(signed_decimal_string(-1000), "-1000");
}

#[test]
fn string_equality() {
    assert!(str_equals("", ""));
    assert!(str_equals("héllo", "héllo"));
    assert!(!str_equals("abc", "abd"));
    assert!(!str_equals("abc", "ab"));
}
