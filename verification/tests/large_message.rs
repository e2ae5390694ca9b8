use aeron_glide::message::{build_message, echo_intact, message_sequence};

#[test]
fn message_layout() {
    let msg = build_message(0x0102_0304, 300);
    assert_eq!(msg.len(), 300);
    assert_eq!(&msg[..4], &0x0102_0304u32.to_le_bytes());
    assert_eq!(msg[4], 4);
    assert_eq!(msg[255], 255);
    assert_eq!(msg[256], 0);
    assert_eq!(msg[299], 43);
}

#[test]
fn sequence_reads_back() {
    for seq in [0u32, 1, 255, 256, 65_535, 16_777_216, u32::MAX] {
        assert_eq!(message_sequence(&build_message(seq, 8192)), seq);
    }
    assert_eq!(message_sequence(&[1, 0, 0, 0, 9]), 1);
}

#[test]
fn minimal_message_is_only_the_sequence() {
    assert_eq!(build_message(7, 4), vec![7, 0, 0, 0]);
}

#[test]
fn echo_check() {
    let sent = build_message(3, 16);
    let same_payload_other_seq = build_message(9, 16);
    assert!(echo_intact(&sent, &sent, 16));
    assert!(echo_intact(&same_payload_other_seq, &sent, 16));
    let mut corrupted = sent.clone();
    corrupted[10] ^= 1;
    assert!(!echo_intact(&corrupted, &sent, 16));
    assert!(!echo_intact(&sent[..15], &sent, 16));
    assert!(!echo_intact(&sent, &build_message(3, 17), 16));
}
