use ether_tester::verdict::{verify, Divergence, Verdict};

#[test]
fn exact_match_passes() {
    assert_eq!(verify(&vec![1, 2, 3], &vec![1, 2, 3], 3), Verdict::Pass);
}

#[test]
fn empty_against_empty_passes() {
    assert_eq!(verify(&Vec::new(), &Vec::new(), 0), Verdict::Pass);
}

#[test]
fn short_received_fails_where_the_bytes_run_out() {
    assert_eq!(
        verify(&vec![1, 2, 3], &vec![1, 2], 2),
        Verdict::Fail(Divergence::MissingByte { index: 2, expected: 3 })
    );
}

#[test]
fn long_received_fails_past_the_expected_end() {
    assert_eq!(
        verify(&vec![1, 2], &vec![1, 2, 3], 3),
        Verdict::Fail(Divergence::ExtraByte { index: 2, actual: 3 })
    );
}

#[test]
fn content_mismatch_fails_at_the_first_difference() {
    assert_eq!(
        verify(&vec![1, 2, 3], &vec![1, 9, 3], 3),
        Verdict::Fail(Divergence::Mismatch { index: 1, expected: 2, actual: 9 })
    );
}

#[test]
fn only_the_valid_length_is_considered() {
    // A larger buffer whose tail is garbage still passes when the valid
    // length fences the garbage off.
    assert_eq!(verify(&vec![1, 2], &vec![1, 2, 99, 99], 2), Verdict::Pass);
    // A valid length larger than the buffer falls back to the buffer.
    assert_eq!(verify(&vec![1, 2], &vec![1, 2], 5), Verdict::Pass);
}

#[test]
fn expected_empty_but_bytes_received() {
    assert_eq!(
        verify(&Vec::new(), &vec![8], 1),
        Verdict::Fail(Divergence::ExtraByte { index: 0, actual: 8 })
    );
}

#[test]
fn diagnostics_cite_index_and_bytes_in_hex() {
    assert_eq!(
        Divergence::Mismatch { index: 1, expected: 2, actual: 9 }.message(),
        "Error in byte 1: Expected 0x02, got 0x09"
    );
    assert_eq!(
        Divergence::MissingByte { index: 2, expected: 3 }.message(),
        "Error in byte 2: Expected 0x03, got none"
    );
    assert_eq!(
        Divergence::ExtraByte { index: 12, actual: 0xAB }.message(),
        "Error in byte 12: Expected none, got 0xAB"
    );
}
