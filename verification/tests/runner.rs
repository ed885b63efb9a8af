use ether_tester::params::Params;
use ether_tester::runner::{
    repetition_step, should_report, RepetitionAction, RepetitionEvent, RepetitionOutcome,
    RepetitionState, RunSummary,
};
use ether_tester::test_case::TestCase;
use ether_tester::verdict::Divergence;

fn sample_params(bytes: usize, reps: usize) -> Params {
    Params {
        bytes,
        dest_ip: 0xC0A80001,
        dest_port: 4660,
        dest_mac: 0x0011_2233_4455,
        no_socket: false,
        reps,
        serial_port: String::from("ttyUSB0"),
        serial_baud: 115200,
        show_all: false,
        src_ip: 0x0A000001,
        src_port: 80,
        src_mac: 0xAABB_CCDD_EEFF,
    }
}

/// Drive one repetition against a mock data channel that answers with
/// `response` and a successful send.
fn run_one(case: &TestCase, response: Vec<u8>) -> RepetitionOutcome {
    let (state, action) = repetition_step(case, RepetitionState::Start, RepetitionEvent::Begin);
    assert_eq!(state, RepetitionState::Sending);
    match action {
        RepetitionAction::Send(packet) => assert_eq!(packet.len(), 26),
        _ => panic!("a send must follow the start"),
    }
    let (state, action) = repetition_step(case, state, RepetitionEvent::SendDone(Ok(())));
    assert_eq!(state, RepetitionState::Receiving);
    match action {
        RepetitionAction::Receive(n) => assert_eq!(n, case.params.bytes),
        _ => panic!("a receive must follow a successful send"),
    }
    let count = response.len();
    let (state, action) =
        repetition_step(case, state, RepetitionEvent::RecvDone(Ok((response, count))));
    match action {
        RepetitionAction::Finish => {}
        _ => panic!("the repetition must be over after the receive"),
    }
    match state {
        RepetitionState::Done(outcome) => outcome,
        _ => panic!("the repetition must be done after the receive"),
    }
}

#[test]
fn end_to_end_pass_and_fail() {
    let p = sample_params(4, 1);
    let case = TestCase { params: &p, seed: 10, gen: 5 };
    assert_eq!(case.expected(), vec![10, 15, 20, 25]);

    let outcome = run_one(&case, vec![10, 15, 20, 25]);
    assert_eq!(outcome, RepetitionOutcome::Pass);

    let outcome = run_one(&case, vec![10, 15, 20, 26]);
    assert_eq!(
        outcome,
        RepetitionOutcome::FailVerify(Divergence::Mismatch {
            index: 3,
            expected: 25,
            actual: 26
        })
    );
}

#[test]
fn send_failure_skips_the_receive() {
    let p = sample_params(4, 1);
    let case = TestCase { params: &p, seed: 10, gen: 5 };
    let (state, _) = repetition_step(&case, RepetitionState::Start, RepetitionEvent::Begin);
    let (state, action) = repetition_step(
        &case,
        state,
        RepetitionEvent::SendDone(Err(String::from("serial line went away"))),
    );
    match action {
        RepetitionAction::Finish => {}
        _ => panic!("a failed send must end the repetition"),
    }
    assert_eq!(
        state,
        RepetitionState::Done(RepetitionOutcome::FailChannel(String::from(
            "serial line went away"
        )))
    );
}

#[test]
fn receive_failure_fails_the_repetition() {
    let p = sample_params(4, 1);
    let case = TestCase { params: &p, seed: 10, gen: 5 };
    let (state, _) = repetition_step(&case, RepetitionState::Start, RepetitionEvent::Begin);
    let (state, _) = repetition_step(&case, state, RepetitionEvent::SendDone(Ok(())));
    let (state, _) = repetition_step(
        &case,
        state,
        RepetitionEvent::RecvDone(Err(String::from("Could not read socket: timed out"))),
    );
    assert_eq!(
        state,
        RepetitionState::Done(RepetitionOutcome::FailChannel(String::from(
            "Could not read socket: timed out"
        )))
    );
}

#[test]
fn five_repetitions_with_two_forced_mismatches() {
    let p = sample_params(3, 5);
    let case = TestCase { params: &p, seed: 1, gen: 1 };
    let good = vec![1, 2, 3];
    let bad = vec![1, 2, 4];
    let mut summary = RunSummary::new();
    for i in 0..p.reps {
        // The second and the fourth repetition are forced to mismatch.
        let response = if i == 1 || i == 3 { bad.clone() } else { good.clone() };
        let outcome = run_one(&case, response);
        summary.record(&outcome);
    }
    assert_eq!(summary.total, 5);
    assert_eq!(summary.failed, 2);
    assert!(!summary.all_passed());
}

#[test]
fn reporting_respects_the_verbosity_flag() {
    let pass = RepetitionOutcome::Pass;
    let fail = RepetitionOutcome::FailChannel(String::from("broken"));
    assert!(!should_report(&pass, false));
    assert!(should_report(&pass, true));
    assert!(should_report(&fail, false));
    assert!(should_report(&fail, true));
}

#[test]
fn summary_counts_only_failures() {
    let mut summary = RunSummary::new();
    assert!(summary.all_passed());
    summary.record(&RepetitionOutcome::Pass);
    summary.record(&RepetitionOutcome::FailChannel(String::from("x")));
    summary.record(&RepetitionOutcome::FailVerify(Divergence::MissingByte {
        index: 0,
        expected: 1,
    }));
    summary.record(&RepetitionOutcome::Pass);
    assert_eq!(summary.total, 4);
    assert_eq!(summary.failed, 2);
    assert!(!summary.all_passed());
}
