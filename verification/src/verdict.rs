//! Byte-exact verification of a received buffer against an expected
//! sequence, yielding a verdict with a localized diagnostic.

use vstd::prelude::*;
use vstd::string::StringExecFns;

use crate::text::{decimal_usize, hex_byte, spec_decimal, spec_hex_byte};

verus! {

/// The first point at which a received buffer diverges from the expected
/// sequence. `index` is always the lowest index at which any divergence
/// exists; scanning is strictly left to right.
#[derive(PartialEq, Eq, Structural, Clone, Copy, Debug)]
pub enum Divergence {
    /// Both sides have a byte at `index` and the bytes differ.
    Mismatch { index: usize, expected: u8, actual: u8 },
    /// The expected sequence has a byte at `index` but the received buffer
    /// is exhausted: the received data is too short.
    MissingByte { index: usize, expected: u8 },
    /// The received buffer has a byte at `index` past the end of the
    /// expected sequence: the received data is too long.
    ExtraByte { index: usize, actual: u8 },
}

/// The outcome of comparing one received buffer: either the buffer matched
/// the expected sequence exactly, or it diverged somewhere.
#[derive(PartialEq, Eq, Structural, Clone, Copy, Debug)]
pub enum Verdict {
    Pass,
    Fail(Divergence),
}

/// The diagnostic line for a divergence: the index of the first point of
/// divergence and, formatted as hexadecimal bytes, what was expected there
/// and what actually stood there.
pub open spec fn spec_message(d: Divergence) -> Seq<char> {
    match d {
        Divergence::Mismatch { index, expected, actual } => "Error in byte "@ + spec_decimal(
            index as nat,
        ) + ": Expected "@ + spec_hex_byte(expected) + ", got "@ + spec_hex_byte(actual),
        Divergence::MissingByte { index, expected } => "Error in byte "@ + spec_decimal(
            index as nat,
        ) + ": Expected "@ + spec_hex_byte(expected) + ", got none"@,
        Divergence::ExtraByte { index, actual } => "Error in byte "@ + spec_decimal(index as nat)
            + ": Expected none, got "@ + spec_hex_byte(actual),
    }
}

impl Divergence {
    /// Render the diagnostic for this divergence.
    pub fn message(&self) -> (s: String)
        ensures
            s@ == spec_message(*self),
    {
        match self {
            Divergence::Mismatch { index, expected, actual } => {
                let mut s = String::from_str("Error in byte ");
                s.append(decimal_usize(*index).as_str());
                s.append(": Expected ");
                s.append(hex_byte(*expected).as_str());
                s.append(", got ");
                s.append(hex_byte(*actual).as_str());
                proof {
                    assert(s@ =~= spec_message(*self));
                }
                s
            },
            Divergence::MissingByte { index, expected } => {
                let mut s = String::from_str("Error in byte ");
                s.append(decimal_usize(*index).as_str());
                s.append(": Expected ");
                s.append(hex_byte(*expected).as_str());
                s.append(", got none");
                proof {
                    assert(s@ =~= spec_message(*self));
                }
                s
            },
            Divergence::ExtraByte { index, actual } => {
                let mut s = String::from_str("Error in byte ");
                s.append(decimal_usize(*index).as_str());
                s.append(": Expected none, got ");
                s.append(hex_byte(*actual).as_str());
                proof {
                    assert(s@ =~= spec_message(*self));
                }
                s
            },
        }
    }
}

/// The verdict for `expected` against `received` when all bytes below `i`
/// are already known to agree: the comparison continues at index `i`.
pub open spec fn spec_verify_from(expected: Seq<u8>, received: Seq<u8>, i: int) -> Verdict
    decreases expected.len() - i,
{
    if i < expected.len() && i < received.len() {
        if expected[i] != received[i] {
            Verdict::Fail(
                Divergence::Mismatch {
                    index: i as usize,
                    expected: expected[i],
                    actual: received[i],
                },
            )
        } else {
            spec_verify_from(expected, received, i + 1)
        }
    } else if i < expected.len() {
        Verdict::Fail(Divergence::MissingByte { index: i as usize, expected: expected[i] })
    } else if i < received.len() {
        Verdict::Fail(Divergence::ExtraByte { index: i as usize, actual: received[i] })
    } else {
        Verdict::Pass
    }
}

/// The verdict for a full left-to-right comparison of two byte sequences.
pub open spec fn spec_verify(expected: Seq<u8>, received: Seq<u8>) -> Verdict {
    spec_verify_from(expected, received, 0)
}

/// The prefix of `received` that a receive call actually filled: the first
/// `valid_len` bytes, or all of `received` if it is shorter than that.
pub open spec fn spec_received_prefix(received: Seq<u8>, valid_len: nat) -> Seq<u8> {
    if valid_len <= received.len() {
        received.take(valid_len as int)
    } else {
        received
    }
}

/// Compare `received` (only its first `valid_len` bytes) against `expected`,
/// element by element from index 0, and report the first divergence.
///
/// `valid_len` lets the caller pass a buffer larger than the datagram that
/// was actually received; bytes past `valid_len` are never looked at.
pub fn verify(expected: &Vec<u8>, received: &Vec<u8>, valid_len: usize) -> (v: Verdict)
    ensures
        v == spec_verify(expected@, spec_received_prefix(received@, valid_len as nat)),
{
    let elen = expected.len();
    let rlen = if valid_len <= received.len() {
        valid_len
    } else {
        received.len()
    };
    let ghost taken = spec_received_prefix(received@, valid_len as nat);
    proof {
        assert(taken =~= received@.take(rlen as int));
    }
    let mut i: usize = 0;
    while i < elen && i < rlen
        invariant
            elen == expected@.len(),
            rlen == taken.len(),
            rlen <= received@.len(),
            taken == spec_received_prefix(received@, valid_len as nat),
            taken =~= received@.take(rlen as int),
            0 <= i <= elen,
            i <= rlen,
            spec_verify(expected@, taken) == spec_verify_from(expected@, taken, i as int),
        decreases elen - i,
    {
        let x = expected[i];
        let y = received[i];
        assert(taken[i as int] == y);
        if x != y {
            return Verdict::Fail(Divergence::Mismatch { index: i, expected: x, actual: y });
        }
        i = i + 1;
    }
    if i < elen {
        let x = expected[i];
        Verdict::Fail(Divergence::MissingByte { index: i, expected: x })
    } else if i < rlen {
        let y = received[i];
        assert(taken[i as int] == y);
        Verdict::Fail(Divergence::ExtraByte { index: i, actual: y })
    } else {
        Verdict::Pass
    }
}

/// Helper for the public characterization lemmas: states what each verdict
/// shape means about the two sequences, assuming everything below `i` is
/// already known to agree.
proof fn lemma_verify_from_characterizes(expected: Seq<u8>, received: Seq<u8>, i: int)
    requires
        expected.len() <= usize::MAX,
        received.len() <= usize::MAX,
        0 <= i <= expected.len(),
        i <= received.len(),
        forall|j: int| 0 <= j < i ==> expected[j] == received[j],
    ensures
        (match spec_verify_from(expected, received, i) {
            Verdict::Pass => expected == received,
            Verdict::Fail(d) => match d {
                Divergence::Mismatch { index, expected: x, actual: y } => {
                    &&& i <= index < expected.len()
                    &&& index < received.len()
                    &&& x == expected[index as int]
                    &&& y == received[index as int]
                    &&& x != y
                    &&& forall|j: int| 0 <= j < index ==> expected[j] == received[j]
                },
                Divergence::MissingByte { index, expected: x } => {
                    &&& index == received.len()
                    &&& index < expected.len()
                    &&& x == expected[index as int]
                    &&& forall|j: int| 0 <= j < index ==> expected[j] == received[j]
                },
                Divergence::ExtraByte { index, actual: y } => {
                    &&& index == expected.len()
                    &&& index < received.len()
                    &&& y == received[index as int]
                    &&& forall|j: int| 0 <= j < index ==> expected[j] == received[j]
                },
            },
        }),
    decreases expected.len() - i,
{
    if i < expected.len() && i < received.len() {
        if expected[i] != received[i] {
        } else {
            lemma_verify_from_characterizes(expected, received, i + 1);
        }
    } else if i < expected.len() {
    } else if i < received.len() {
    } else {
        assert(expected =~= received);
    }
}

/// The first point of divergence reported is the lowest index at which the
/// two sequences diverge, and the reported bytes are the bytes that stand
/// there: every index below it agrees, and the diagnostic's own index and
/// bytes are taken from the sequences themselves.
pub proof fn lemma_verify_first_divergence(expected: Seq<u8>, received: Seq<u8>)
    requires
        expected.len() <= usize::MAX,
        received.len() <= usize::MAX,
    ensures
        (match spec_verify(expected, received) {
            Verdict::Pass => expected == received,
            Verdict::Fail(d) => match d {
                Divergence::Mismatch { index, expected: x, actual: y } => {
                    &&& index < expected.len()
                    &&& index < received.len()
                    &&& x == expected[index as int]
                    &&& y == received[index as int]
                    &&& x != y
                    &&& forall|j: int| 0 <= j < index ==> expected[j] == received[j]
                },
                Divergence::MissingByte { index, expected: x } => {
                    &&& index == received.len()
                    &&& index < expected.len()
                    &&& x == expected[index as int]
                    &&& forall|j: int| 0 <= j < index ==> expected[j] == received[j]
                },
                Divergence::ExtraByte { index, actual: y } => {
                    &&& index == expected.len()
                    &&& index < received.len()
                    &&& y == received[index as int]
                    &&& forall|j: int| 0 <= j < index ==> expected[j] == received[j]
                },
            },
        }),
{
    lemma_verify_from_characterizes(expected, received, 0);
}

/// A comparison passes exactly when the expected sequence and the received
/// prefix are equal, byte for byte and in length.
pub proof fn lemma_verify_pass_iff(expected: Seq<u8>, received: Seq<u8>)
    requires
        expected.len() <= usize::MAX,
        received.len() <= usize::MAX,
    ensures
        spec_verify(expected, received) == Verdict::Pass <==> expected == received,
{
    lemma_verify_from_characterizes(expected, received, 0);
    if expected == received {
        match spec_verify(expected, received) {
            Verdict::Pass => {},
            Verdict::Fail(d) => {
                match d {
                    Divergence::Mismatch { index, expected: x, actual: y } => {
                        assert(expected[index as int] == received[index as int]);
                    },
                    Divergence::MissingByte { .. } => {},
                    Divergence::ExtraByte { .. } => {},
                }
            },
        }
    }
}

} // verus!
