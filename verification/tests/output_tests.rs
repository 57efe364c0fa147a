use rust_spoa::output::{consensus_from_reply, finalize_bounded, zero_buffer};
use rust_spoa::ConsensusError;

#[test]
fn test_reply_payload_is_copied() {
    let reply = b"AATGCCCGTT\0".to_vec();
    let result = consensus_from_reply(&reply);
    assert_eq!(result, Ok(b"AATGCCCGTT".to_vec()));
}

#[test]
fn test_reply_bytes_after_sentinel_are_dropped() {
    let reply = b"AATG\0CCGTT".to_vec();
    let result = consensus_from_reply(&reply);
    assert_eq!(result, Ok(b"AATG".to_vec()));
}

#[test]
fn test_reply_without_sentinel_is_engine_failure() {
    let reply = b"AATGCCCGTT".to_vec();
    assert_eq!(consensus_from_reply(&reply), Err(ConsensusError::EngineFailure));
    let empty: Vec<u8> = Vec::new();
    assert_eq!(consensus_from_reply(&empty), Err(ConsensusError::EngineFailure));
}

#[test]
fn test_empty_reply_is_engine_failure() {
    let reply = vec![0u8];
    assert_eq!(consensus_from_reply(&reply), Err(ConsensusError::EngineFailure));
}

#[test]
fn test_bounded_output_truncated_to_capacity() {
    // The engine reports more bytes than the buffer holds: the result is the
    // whole buffer, exactly the buffer's capacity long.
    let buf = b"AATGC".to_vec();
    let result = finalize_bounded(buf, 12);
    assert_eq!(result, b"AATGC".to_vec());
}

#[test]
fn test_bounded_output_trimmed_to_written_length() {
    // The engine wrote fewer bytes than the buffer holds: the unused tail is
    // trimmed away.
    let buf = b"AATG\0\0\0\0".to_vec();
    let result = finalize_bounded(buf, 4);
    assert_eq!(result, b"AATG".to_vec());
}

#[test]
fn test_bounded_output_exact_fit() {
    let buf = b"AATG".to_vec();
    let result = finalize_bounded(buf, 4);
    assert_eq!(result, b"AATG".to_vec());
}

#[test]
fn test_zero_buffer_is_all_zeros() {
    let buf = zero_buffer(6);
    assert_eq!(buf, vec![0u8; 6]);
    assert_eq!(zero_buffer(0), Vec::<u8>::new());
}
