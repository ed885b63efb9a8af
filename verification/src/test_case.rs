//! A single test case: a freshly seeded test vector, its expected payload,
//! and its fixed-layout control-channel encoding.

use vstd::prelude::*;

use crate::params::{Params, MAC_LIMIT};

verus! {

/// The fixed length of the control-channel packet, in bytes.
pub const PACKET_LEN: usize = 26;

/// The byte of `v` at position `k`, counting from the least significant.
pub open spec fn nth_byte(v: u64, k: int) -> u8 {
    ((v >> ((8 * k) as u64)) & 0xff) as u8
}

/// The low `n` bytes of `v`, most significant byte first (network order).
/// Bytes of `v` above the low `n` are discarded.
pub open spec fn spec_be_bytes(v: u64, n: nat) -> Seq<u8> {
    Seq::new(n, |i: int| nth_byte(v, n - 1 - i))
}

/// Unsigned 8-bit modular addition: the arithmetic the device performs in
/// hardware when it steps from one payload byte to the next.
pub open spec fn wrap_add(a: u8, b: u8) -> u8 {
    ((a + b) % 256) as u8
}

/// The expected payload: `seed` first, then each byte the previous byte
/// plus `step`, wrapping at 8 bits. Length 0 gives the empty sequence.
pub open spec fn spec_generate(seed: u8, step: u8, n: nat) -> Seq<u8>
    decreases n,
{
    if n == 0 {
        Seq::empty()
    } else if n == 1 {
        seq![seed]
    } else {
        let prev = spec_generate(seed, step, (n - 1) as nat);
        prev.push(wrap_add(prev.last(), step))
    }
}

/// The generated sequence has exactly the requested length.
pub proof fn lemma_generate_len(seed: u8, step: u8, n: nat)
    ensures
        spec_generate(seed, step, n).len() == n,
    decreases n,
{
    if n > 1 {
        lemma_generate_len(seed, step, (n - 1) as nat);
    }
}

/// A zero-length request yields the empty sequence, whatever the seed and
/// the step.
pub proof fn lemma_generate_empty(seed: u8, step: u8)
    ensures
        spec_generate(seed, step, 0) == Seq::<u8>::empty(),
{
}

/// Determinism: the expected payload depends on the seed, the step and the
/// length alone, so any two sequences produced for the same inputs are
/// identical.
pub proof fn lemma_generate_deterministic(seed: u8, step: u8, n: nat, v1: Seq<u8>, v2: Seq<u8>)
    requires
        v1 == spec_generate(seed, step, n),
        v2 == spec_generate(seed, step, n),
    ensures
        v1 == v2,
{
}

/// The eight values a control packet carries, as plain integers.
#[derive(PartialEq, Eq, Structural, Clone, Copy, Debug)]
pub struct PacketFields {
    /// The test device IP address.
    pub src_ip: u32,
    /// The test device port.
    pub src_port: u16,
    /// The test device MAC address, in the low 48 bits.
    pub src_mac: u64,
    /// The host IP address.
    pub dest_ip: u32,
    /// The host port.
    pub dest_port: u16,
    /// The host MAC address, in the low 48 bits.
    pub dest_mac: u64,
    /// The data seed.
    pub seed: u8,
    /// The data generator step.
    pub gen: u8,
}

/// The 26-byte big-endian wire layout of a control packet: source IP (4),
/// source port (2), source MAC (6), destination IP (4), destination port
/// (2), destination MAC (6), seed (1), step (1). The field order and the
/// widths are what the device's control-channel parser expects; the seed
/// and step are single bytes with no byte order of their own.
pub open spec fn spec_packet(f: PacketFields) -> Seq<u8> {
    spec_be_bytes(f.src_ip as u64, 4) + spec_be_bytes(f.src_port as u64, 2) + spec_be_bytes(
        f.src_mac,
        6,
    ) + spec_be_bytes(f.dest_ip as u64, 4) + spec_be_bytes(f.dest_port as u64, 2) + spec_be_bytes(
        f.dest_mac,
        6,
    ) + seq![f.seed] + seq![f.gen]
}

/// The packet fields a test case draws from its parameters.
pub open spec fn packet_fields(p: Params, seed: u8, gen: u8) -> PacketFields {
    PacketFields {
        src_ip: p.src_ip,
        src_port: p.src_port,
        src_mac: p.src_mac,
        dest_ip: p.dest_ip,
        dest_port: p.dest_port,
        dest_mac: p.dest_mac,
        seed: seed,
        gen: gen,
    }
}

/// Every packet is exactly [`PACKET_LEN`] bytes long, whatever the fields
/// hold.
pub proof fn lemma_packet_len(f: PacketFields)
    ensures
        spec_packet(f).len() == PACKET_LEN,
{
}

/// The packet fields read back from a 26-byte buffer, each assembled most
/// significant byte first.
pub open spec fn spec_fields_of(b: Seq<u8>) -> PacketFields {
    PacketFields {
        src_ip: (b[0] as u32) << 24 | (b[1] as u32) << 16 | (b[2] as u32) << 8 | (b[3] as u32),
        src_port: (b[4] as u16) << 8 | (b[5] as u16),
        src_mac: (b[6] as u64) << 40 | (b[7] as u64) << 32 | (b[8] as u64) << 24 | (b[9] as u64)
            << 16 | (b[10] as u64) << 8 | (b[11] as u64),
        dest_ip: (b[12] as u32) << 24 | (b[13] as u32) << 16 | (b[14] as u32) << 8 | (
        b[15] as u32),
        dest_port: (b[16] as u16) << 8 | (b[17] as u16),
        dest_mac: (b[18] as u64) << 40 | (b[19] as u64) << 32 | (b[20] as u64) << 24 | (
        b[21] as u64) << 16 | (b[22] as u64) << 8 | (b[23] as u64),
        seed: b[24],
        gen: b[25],
    }
}

/// Decoding an encoded packet gives back exactly the fields that were
/// encoded, provided the hardware addresses fit in their 48 bits (the
/// encoding discards anything above them).
pub proof fn lemma_packet_round_trip(f: PacketFields)
    requires
        f.src_mac < MAC_LIMIT,
        f.dest_mac < MAC_LIMIT,
    ensures
        spec_fields_of(spec_packet(f)) == f,
{
    let b = spec_packet(f);
    assert(b[0] == nth_byte(f.src_ip as u64, 3));
    assert(b[1] == nth_byte(f.src_ip as u64, 2));
    assert(b[2] == nth_byte(f.src_ip as u64, 1));
    assert(b[3] == nth_byte(f.src_ip as u64, 0));
    assert(b[4] == nth_byte(f.src_port as u64, 1));
    assert(b[5] == nth_byte(f.src_port as u64, 0));
    assert(b[6] == nth_byte(f.src_mac, 5));
    assert(b[7] == nth_byte(f.src_mac, 4));
    assert(b[8] == nth_byte(f.src_mac, 3));
    assert(b[9] == nth_byte(f.src_mac, 2));
    assert(b[10] == nth_byte(f.src_mac, 1));
    assert(b[11] == nth_byte(f.src_mac, 0));
    assert(b[12] == nth_byte(f.dest_ip as u64, 3));
    assert(b[13] == nth_byte(f.dest_ip as u64, 2));
    assert(b[14] == nth_byte(f.dest_ip as u64, 1));
    assert(b[15] == nth_byte(f.dest_ip as u64, 0));
    assert(b[16] == nth_byte(f.dest_port as u64, 1));
    assert(b[17] == nth_byte(f.dest_port as u64, 0));
    assert(b[18] == nth_byte(f.dest_mac, 5));
    assert(b[19] == nth_byte(f.dest_mac, 4));
    assert(b[20] == nth_byte(f.dest_mac, 3));
    assert(b[21] == nth_byte(f.dest_mac, 2));
    assert(b[22] == nth_byte(f.dest_mac, 1));
    assert(b[23] == nth_byte(f.dest_mac, 0));
    assert(b[24] == f.seed);
    assert(b[25] == f.gen);
    lemma_bytes_recompose_u32(f.src_ip, b[0], b[1], b[2], b[3]);
    lemma_bytes_recompose_u16(f.src_port, b[4], b[5]);
    lemma_bytes_recompose_u48(f.src_mac, b[6], b[7], b[8], b[9], b[10], b[11]);
    lemma_bytes_recompose_u32(f.dest_ip, b[12], b[13], b[14], b[15]);
    lemma_bytes_recompose_u16(f.dest_port, b[16], b[17]);
    lemma_bytes_recompose_u48(f.dest_mac, b[18], b[19], b[20], b[21], b[22], b[23]);
}

/// Reassembling the four bytes of a `u32`, most significant first, gives
/// the value back.
proof fn lemma_bytes_recompose_u32(v: u32, c3: u8, c2: u8, c1: u8, c0: u8)
    requires
        c3 == nth_byte(v as u64, 3),
        c2 == nth_byte(v as u64, 2),
        c1 == nth_byte(v as u64, 1),
        c0 == nth_byte(v as u64, 0),
    ensures
        (c3 as u32) << 24 | (c2 as u32) << 16 | (c1 as u32) << 8 | (c0 as u32) == v,
{
    assert((c3 as u32) << 24 | (c2 as u32) << 16 | (c1 as u32) << 8 | (c0 as u32) == v)
        by (bit_vector)
        requires
            c3 == (((v as u64) >> 24) & 0xff) as u8,
            c2 == (((v as u64) >> 16) & 0xff) as u8,
            c1 == (((v as u64) >> 8) & 0xff) as u8,
            c0 == (((v as u64) >> 0) & 0xff) as u8,
    ;
}

/// Reassembling the two bytes of a `u16`, most significant first, gives
/// the value back.
proof fn lemma_bytes_recompose_u16(v: u16, c1: u8, c0: u8)
    requires
        c1 == nth_byte(v as u64, 1),
        c0 == nth_byte(v as u64, 0),
    ensures
        (c1 as u16) << 8 | (c0 as u16) == v,
{
    assert((c1 as u16) << 8 | (c0 as u16) == v) by (bit_vector)
        requires
            c1 == (((v as u64) >> 8) & 0xff) as u8,
            c0 == (((v as u64) >> 0) & 0xff) as u8,
    ;
}

/// Reassembling the six low bytes of a 48-bit value, most significant
/// first, gives the value back.
proof fn lemma_bytes_recompose_u48(v: u64, c5: u8, c4: u8, c3: u8, c2: u8, c1: u8, c0: u8)
    requires
        v < MAC_LIMIT,
        c5 == nth_byte(v, 5),
        c4 == nth_byte(v, 4),
        c3 == nth_byte(v, 3),
        c2 == nth_byte(v, 2),
        c1 == nth_byte(v, 1),
        c0 == nth_byte(v, 0),
    ensures
        (c5 as u64) << 40 | (c4 as u64) << 32 | (c3 as u64) << 24 | (c2 as u64) << 16 | (
        c1 as u64) << 8 | (c0 as u64) == v,
{
    assert((c5 as u64) << 40 | (c4 as u64) << 32 | (c3 as u64) << 24 | (c2 as u64) << 16 | (
    c1 as u64) << 8 | (c0 as u64) == v) by (bit_vector)
        requires
            v < 0x1_0000_0000_0000,
            c5 == ((v >> 40) & 0xff) as u8,
            c4 == ((v >> 32) & 0xff) as u8,
            c3 == ((v >> 24) & 0xff) as u8,
            c2 == ((v >> 16) & 0xff) as u8,
            c1 == ((v >> 8) & 0xff) as u8,
            c0 == ((v >> 0) & 0xff) as u8,
    ;
}

/// Relies on `rand::random`: a value drawn from the thread-local generator.
/// Nothing is promised of which value comes back.
pub assume_specification<T>[ rand::random::<T> ]() -> (r: T)
    where
        rand::distributions::Standard: rand::distributions::Distribution<T>,
;

/// A single test case to perform with the device.
pub struct TestCase<'a> {
    /// The test parameters to use.
    pub params: &'a Params,
    /// The data seed.
    pub seed: u8,
    /// The data generator step.
    pub gen: u8,
}

impl<'a> TestCase<'a> {
    /// Create a new test case from the test parameters, with a freshly
    /// drawn random seed and step.
    pub fn new(params: &'a Params) -> (r: TestCase<'a>)
        ensures
            r.params == params,
    {
        TestCase { params: params, seed: rand::random::<u8>(), gen: rand::random::<u8>() }
    }

    /// The expected payload of this test case: the byte sequence the device
    /// is expected to send back, derived from the seed and step alone.
    pub fn expected(&self) -> (v: Vec<u8>)
        ensures
            v@ == spec_generate(self.seed, self.gen, self.params.bytes as nat),
    {
        let mut v: Vec<u8> = Vec::new();
        if self.params.bytes > 0 {
            v.push(self.seed);
            let mut i: usize = 1;
            while i < self.params.bytes
                invariant
                    1 <= i <= self.params.bytes,
                    v@.len() == i,
                    v@ == spec_generate(self.seed, self.gen, i as nat),
                decreases self.params.bytes - i,
            {
                let next = v[i - 1].wrapping_add(self.gen);
                v.push(next);
                i = i + 1;
            }
        }
        v
    }

    /// Serialize the test case into the 26-byte control packet.
    pub fn to_bytes(&self) -> (bytes: Vec<u8>)
        ensures
            bytes@ == spec_packet(packet_fields(*self.params, self.seed, self.gen)),
            bytes@.len() == PACKET_LEN,
    {
        let mut bytes: Vec<u8> = Vec::new();
        Self::append_bytes(&mut bytes, self.params.src_ip as u64, 4);
        Self::append_bytes(&mut bytes, self.params.src_port as u64, 2);
        Self::append_bytes(&mut bytes, self.params.src_mac, 6);
        Self::append_bytes(&mut bytes, self.params.dest_ip as u64, 4);
        Self::append_bytes(&mut bytes, self.params.dest_port as u64, 2);
        Self::append_bytes(&mut bytes, self.params.dest_mac, 6);
        bytes.push(self.seed);
        bytes.push(self.gen);
        proof {
            assert(bytes@ =~= spec_packet(packet_fields(*self.params, self.seed, self.gen)));
        }
        bytes
    }

    /// Append the low `bytes` bytes of `data` to `vec`, most significant
    /// byte first.
    fn append_bytes(vec: &mut Vec<u8>, data: u64, bytes: u8)
        requires
            bytes <= 8,
        ensures
            final(vec)@ == old(vec)@ + spec_be_bytes(data, bytes as nat),
    {
        let mut k: u8 = bytes;
        while k > 0
            invariant
                k <= bytes <= 8,
                vec@ =~= old(vec)@ + spec_be_bytes(data, bytes as nat).take((bytes - k) as int),
            decreases k,
        {
            k = k - 1;
            let shift: u64 = 8 * (k as u64);
            let b: u8 = ((data >> shift) & 0xff) as u8;
            vec.push(b);
        }
        proof {
            assert(vec@ =~= old(vec)@ + spec_be_bytes(data, bytes as nat));
        }
    }
}

/// Read a big-endian `u16` out of `b` at offset `off`.
fn read_be_u16(b: &Vec<u8>, off: usize) -> (r: u16)
    requires
        off + 2 <= b.len(),
    ensures
        spec_be_bytes(r as u64, 2) == b@.subrange(off as int, off + 2),
        r == (b@[off as int] as u16) << 8 | (b@[off + 1] as u16),
{
    let x = b[off];
    let y = b[off + 1];
    let r: u16 = (x as u16) << 8 | (y as u16);
    proof {
        assert((((r as u64) >> 8) & 0xff) as u8 == x && (((r as u64) >> 0) & 0xff) as u8 == y)
            by (bit_vector)
            requires
                r == (x as u16) << 8 | (y as u16),
        ;
        assert(spec_be_bytes(r as u64, 2) =~= b@.subrange(off as int, off + 2));
    }
    r
}

/// Read a big-endian `u32` out of `b` at offset `off`.
fn read_be_u32(b: &Vec<u8>, off: usize) -> (r: u32)
    requires
        off + 4 <= b.len(),
    ensures
        spec_be_bytes(r as u64, 4) == b@.subrange(off as int, off + 4),
        r == (b@[off as int] as u32) << 24 | (b@[off + 1] as u32) << 16 | (b@[off + 2] as u32)
            << 8 | (b@[off + 3] as u32),
{
    let b0 = b[off];
    let b1 = b[off + 1];
    let b2 = b[off + 2];
    let b3 = b[off + 3];
    let r: u32 = (b0 as u32) << 24 | (b1 as u32) << 16 | (b2 as u32) << 8 | (b3 as u32);
    proof {
        assert((((r as u64) >> 24) & 0xff) as u8 == b0 && (((r as u64) >> 16) & 0xff) as u8 == b1
            && (((r as u64) >> 8) & 0xff) as u8 == b2 && (((r as u64) >> 0) & 0xff) as u8 == b3)
            by (bit_vector)
            requires
                r == (b0 as u32) << 24 | (b1 as u32) << 16 | (b2 as u32) << 8 | (b3 as u32),
        ;
        assert(spec_be_bytes(r as u64, 4) =~= b@.subrange(off as int, off + 4));
    }
    r
}

/// Read a big-endian 48-bit value out of `b` at offset `off`.
fn read_be_u48(b: &Vec<u8>, off: usize) -> (r: u64)
    requires
        off + 6 <= b.len(),
    ensures
        r < MAC_LIMIT,
        spec_be_bytes(r, 6) == b@.subrange(off as int, off + 6),
        r == (b@[off as int] as u64) << 40 | (b@[off + 1] as u64) << 32 | (b@[off + 2] as u64)
            << 24 | (b@[off + 3] as u64) << 16 | (b@[off + 4] as u64) << 8 | (b@[off + 5] as u64),
{
    let b0 = b[off];
    let b1 = b[off + 1];
    let b2 = b[off + 2];
    let b3 = b[off + 3];
    let b4 = b[off + 4];
    let b5 = b[off + 5];
    let r: u64 = (b0 as u64) << 40 | (b1 as u64) << 32 | (b2 as u64) << 24 | (b3 as u64) << 16 | (
    b4 as u64) << 8 | (b5 as u64);
    proof {
        assert(r < 0x1_0000_0000_0000 && ((r >> 40) & 0xff) as u8 == b0 && ((r >> 32)
            & 0xff) as u8 == b1 && ((r >> 24) & 0xff) as u8 == b2 && ((r >> 16) & 0xff) as u8 == b3
            && ((r >> 8) & 0xff) as u8 == b4 && ((r >> 0) & 0xff) as u8 == b5) by (bit_vector)
            requires
                r == (b0 as u64) << 40 | (b1 as u64) << 32 | (b2 as u64) << 24 | (b3 as u64) << 16
                    | (b4 as u64) << 8 | (b5 as u64),
        ;
        assert(spec_be_bytes(r, 6) =~= b@.subrange(off as int, off + 6));
    }
    r
}

/// Decode a 26-byte control packet back into its fields. Re-encoding the
/// result reproduces the buffer byte for byte.
pub fn decode_packet(bytes: &Vec<u8>) -> (f: PacketFields)
    requires
        bytes@.len() == PACKET_LEN,
    ensures
        f == spec_fields_of(bytes@),
        spec_packet(f) == bytes@,
        f.src_mac < MAC_LIMIT,
        f.dest_mac < MAC_LIMIT,
{
    let f = PacketFields {
        src_ip: read_be_u32(bytes, 0),
        src_port: read_be_u16(bytes, 4),
        src_mac: read_be_u48(bytes, 6),
        dest_ip: read_be_u32(bytes, 12),
        dest_port: read_be_u16(bytes, 16),
        dest_mac: read_be_u48(bytes, 18),
        seed: bytes[24],
        gen: bytes[25],
    };
    proof {
        assert(spec_packet(f) =~= bytes@);
        assert(f == spec_fields_of(bytes@));
    }
    f
}

} // verus!
