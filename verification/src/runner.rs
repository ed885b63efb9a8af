//! The per-repetition protocol and the aggregate run summary.
//!
//! One repetition walks a fixed path: encode and send the control packet,
//! then read the data channel, then verify what came back. The decisions
//! along that path live here, as a step function from state and event to
//! the next state and the next action; the driver around the library
//! performs the channel I/O and reports each result back as an event.

use vstd::prelude::*;

use crate::test_case::{packet_fields, spec_generate, spec_packet, TestCase, PACKET_LEN};
use crate::verdict::{spec_received_prefix, spec_verify, verify, Divergence, Verdict};

verus! {

/// The outcome of one finished repetition.
#[derive(PartialEq, Debug)]
pub enum RepetitionOutcome {
    /// The received payload matched the expected sequence exactly.
    Pass,
    /// The received payload diverged from the expected sequence.
    FailVerify(Divergence),
    /// A channel operation failed; the message is the I/O error's own.
    FailChannel(String),
}

/// Where a repetition stands.
#[derive(PartialEq, Debug)]
pub enum RepetitionState {
    /// Nothing has happened yet.
    Start,
    /// The packet has been handed to the control channel; the send result
    /// is awaited.
    Sending,
    /// The send succeeded; the data-channel read result is awaited.
    Receiving,
    /// The repetition is over, with this outcome.
    Done(RepetitionOutcome),
}

/// What the driver reports back to the step function.
pub enum RepetitionEvent {
    /// The repetition is beginning.
    Begin,
    /// The control-channel write finished.
    SendDone(Result<(), String>),
    /// The data-channel read finished: the buffer it filled and the byte
    /// count it reported, or the error (a timeout arrives as an error).
    RecvDone(Result<(Vec<u8>, usize), String>),
}

/// What the driver must do next.
pub enum RepetitionAction {
    /// Write these bytes to the control channel.
    Send(Vec<u8>),
    /// Read one datagram into a buffer of this size.
    Receive(usize),
    /// Nothing: the repetition is over and its outcome stands in the state.
    Finish,
}

/// Whether `event` is the event the repetition in `state` is waiting for.
pub open spec fn step_fits(state: RepetitionState, event: RepetitionEvent) -> bool {
    match state {
        RepetitionState::Start => event is Begin,
        RepetitionState::Sending => event is SendDone,
        RepetitionState::Receiving => event is RecvDone,
        RepetitionState::Done(_) => false,
    }
}

/// Advance one repetition of `case` by one event.
///
/// A send failure ends the repetition at once (the read is never
/// attempted); a read failure ends it likewise; a read result is verified
/// against the expected sequence, with the reported byte count as the
/// valid length.
pub fn repetition_step(case: &TestCase, state: RepetitionState, event: RepetitionEvent) -> (r: (
    RepetitionState,
    RepetitionAction,
))
    requires
        step_fits(state, event),
    ensures
        state is Start ==> {
            &&& r.0 is Sending
            &&& r.1 matches RepetitionAction::Send(p) && p@ == spec_packet(
                packet_fields(*case.params, case.seed, case.gen),
            ) && p@.len() == PACKET_LEN
        },
        state is Sending ==> (event matches RepetitionEvent::SendDone(Ok(_)) ==> {
            &&& r.0 is Receiving
            &&& r.1 matches RepetitionAction::Receive(n) && n == case.params.bytes
        }),
        state is Sending ==> (event matches RepetitionEvent::SendDone(Err(m)) ==> {
            &&& r.0 matches RepetitionState::Done(RepetitionOutcome::FailChannel(mm)) && mm == m
            &&& r.1 is Finish
        }),
        state is Receiving ==> (event matches RepetitionEvent::RecvDone(Ok(bc)) ==> {
            &&& r.1 is Finish
            &&& r.0 matches RepetitionState::Done(o) && match spec_verify(
                spec_generate(case.seed, case.gen, case.params.bytes as nat),
                spec_received_prefix(bc.0@, bc.1 as nat),
            ) {
                Verdict::Pass => o is Pass,
                Verdict::Fail(d) => o matches RepetitionOutcome::FailVerify(dd) && dd == d,
            }
        }),
        state is Receiving ==> (event matches RepetitionEvent::RecvDone(Err(m)) ==> {
            &&& r.0 matches RepetitionState::Done(RepetitionOutcome::FailChannel(mm)) && mm == m
            &&& r.1 is Finish
        }),
{
    match (state, event) {
        (RepetitionState::Start, RepetitionEvent::Begin) => (
            RepetitionState::Sending,
            RepetitionAction::Send(case.to_bytes()),
        ),
        (RepetitionState::Sending, RepetitionEvent::SendDone(res)) => match res {
            Ok(_) => (RepetitionState::Receiving, RepetitionAction::Receive(case.params.bytes)),
            Err(m) => (
                RepetitionState::Done(RepetitionOutcome::FailChannel(m)),
                RepetitionAction::Finish,
            ),
        },
        (RepetitionState::Receiving, RepetitionEvent::RecvDone(res)) => match res {
            Ok((buf, count)) => {
                let expected = case.expected();
                let v = verify(&expected, &buf, count);
                let o = match v {
                    Verdict::Pass => RepetitionOutcome::Pass,
                    Verdict::Fail(d) => RepetitionOutcome::FailVerify(d),
                };
                (RepetitionState::Done(o), RepetitionAction::Finish)
            },
            Err(m) => (
                RepetitionState::Done(RepetitionOutcome::FailChannel(m)),
                RepetitionAction::Finish,
            ),
        },
        _ => {
            proof {
                assert(false);
            }
            (RepetitionState::Start, RepetitionAction::Finish)
        },
    }
}

/// Whether the driver should report this outcome to the user: failures
/// always, passes only when the verbosity flag asks for all results.
pub fn should_report(outcome: &RepetitionOutcome, show_all: bool) -> (b: bool)
    ensures
        b == (!(outcome is Pass) || show_all),
{
    match outcome {
        RepetitionOutcome::Pass => show_all,
        _ => true,
    }
}

/// Aggregate result of a whole run: how many repetitions were executed and
/// how many of them failed. Per-repetition failures never abort a run, so
/// the failed count is the run's only failure signal.
pub struct RunSummary {
    /// Repetitions executed so far.
    pub total: u64,
    /// Repetitions that failed, by divergence or by channel error.
    pub failed: u64,
}

impl RunSummary {
    /// An empty summary: nothing executed, nothing failed.
    pub fn new() -> (s: RunSummary)
        ensures
            s.total == 0,
            s.failed == 0,
    {
        RunSummary { total: 0, failed: 0 }
    }

    /// Record one finished repetition: the total always grows by one, the
    /// failed count exactly when the outcome is not a pass.
    pub fn record(&mut self, outcome: &RepetitionOutcome)
        requires
            old(self).total < u64::MAX,
            old(self).failed < u64::MAX,
        ensures
            final(self).total == old(self).total + 1,
            final(self).failed == old(self).failed + if outcome is Pass {
                0int
            } else {
                1int
            },
    {
        self.total = self.total + 1;
        match outcome {
            RepetitionOutcome::Pass => {},
            _ => {
                self.failed = self.failed + 1;
            },
        }
    }

    /// Whether every repetition recorded so far passed.
    pub fn all_passed(&self) -> (b: bool)
        ensures
            b == (self.failed == 0),
    {
        self.failed == 0
    }
}

} // verus!
