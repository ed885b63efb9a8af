//! Test parameters: the configuration a whole run is driven by.

use vstd::prelude::*;
use vstd::string::StringExecFns;

use crate::text::{decimal_u64, hex_pair, spec_decimal, spec_hex_pair};

verus! {

/// The parameters of a test run.
///
/// The address fields hold plain integers: an IP address occupies 32 bits,
/// a port 16 bits, and a hardware (MAC) address the low 48 bits of a `u64`.
/// The configuration boundary is expected to hand over values already in
/// range; [`Params::wf`] records the one structural bound the types alone do
/// not give, namely that hardware addresses fit in 48 bits.
pub struct Params {
    /// The number of payload bytes per test packet.
    pub bytes: usize,
    /// The host IP address.
    pub dest_ip: u32,
    /// The host port.
    pub dest_port: u16,
    /// The host MAC address, in the low 48 bits.
    pub dest_mac: u64,
    /// Indicates that no socket should be created.
    pub no_socket: bool,
    /// The number of tests to run.
    pub reps: usize,
    /// The name of the serial port to use.
    pub serial_port: String,
    /// The baud rate of the serial port, as a plain speed.
    pub serial_baud: usize,
    /// Indicates whether all results, not just failures, should be shown.
    pub show_all: bool,
    /// The test device IP address.
    pub src_ip: u32,
    /// The test device port.
    pub src_port: u16,
    /// The test device MAC address, in the low 48 bits.
    pub src_mac: u64,
}

/// The first value past the range of a 48-bit hardware address.
pub const MAC_LIMIT: u64 = 0x1_0000_0000_0000;

impl Params {
    /// Well-formedness: both hardware addresses fit in 48 bits.
    pub open spec fn wf(&self) -> bool {
        self.src_mac < MAC_LIMIT && self.dest_mac < MAC_LIMIT
    }

    /// The destination IP address as dotted decimal text.
    pub fn dest_ip_string(&self) -> (s: String)
        ensures
            s@ == spec_format_ip(self.dest_ip),
    {
        format_ip(&self.dest_ip)
    }

    /// The destination MAC address as colon-separated hex pairs.
    pub fn dest_mac_string(&self) -> (s: String)
        ensures
            s@ == spec_format_mac(self.dest_mac),
    {
        format_mac(&self.dest_mac)
    }

    /// The source IP address as dotted decimal text.
    pub fn src_ip_string(&self) -> (s: String)
        ensures
            s@ == spec_format_ip(self.src_ip),
    {
        format_ip(&self.src_ip)
    }

    /// The source MAC address as colon-separated hex pairs.
    pub fn src_mac_string(&self) -> (s: String)
        ensures
            s@ == spec_format_mac(self.src_mac),
    {
        format_mac(&self.src_mac)
    }
}

/// An IP address as text: the four octets in decimal, most significant
/// first, separated by dots.
pub open spec fn spec_format_ip(ip: u32) -> Seq<char> {
    spec_decimal(ip_octet(ip, 3) as nat) + seq!['.'] + spec_decimal(ip_octet(ip, 2) as nat)
        + seq!['.'] + spec_decimal(ip_octet(ip, 1) as nat) + seq!['.'] + spec_decimal(
        ip_octet(ip, 0) as nat,
    )
}

/// A MAC address as text: the six bytes as uppercase hex pairs, most
/// significant first, separated by colons.
pub open spec fn spec_format_mac(mac: u64) -> Seq<char> {
    spec_hex_pair(mac_byte(mac, 5)) + seq![':'] + spec_hex_pair(mac_byte(mac, 4)) + seq![':']
        + spec_hex_pair(mac_byte(mac, 3)) + seq![':'] + spec_hex_pair(mac_byte(mac, 2)) + seq![':']
        + spec_hex_pair(mac_byte(mac, 1)) + seq![':'] + spec_hex_pair(mac_byte(mac, 0))
}

/// Format an IP address as dotted decimal.
pub fn format_ip(ip: &u32) -> (s: String)
    ensures
        s@ == spec_format_ip(*ip),
{
    let v = *ip;
    let o3: u8 = ((v >> 24) & 0xff) as u8;
    let o2: u8 = ((v >> 16) & 0xff) as u8;
    let o1: u8 = ((v >> 8) & 0xff) as u8;
    let o0: u8 = (v & 0xff) as u8;
    proof {
        assert(o3 == ip_octet(v, 3) && o2 == ip_octet(v, 2) && o1 == ip_octet(v, 1) && o0
            == ip_octet(v, 0)) by (bit_vector)
            requires
                o3 == ((v >> 24) & 0xff) as u8,
                o2 == ((v >> 16) & 0xff) as u8,
                o1 == ((v >> 8) & 0xff) as u8,
                o0 == (v & 0xff) as u8,
        ;
    }
    let mut s = decimal_u64(o3 as u64);
    s.append(".");
    s.append(decimal_u64(o2 as u64).as_str());
    s.append(".");
    s.append(decimal_u64(o1 as u64).as_str());
    s.append(".");
    s.append(decimal_u64(o0 as u64).as_str());
    proof {
        reveal_strlit(".");
        assert(s@ =~= spec_format_ip(v));
    }
    s
}

/// Format a MAC address as colon-separated uppercase hex pairs.
pub fn format_mac(mac: &u64) -> (s: String)
    ensures
        s@ == spec_format_mac(*mac),
{
    let v = *mac;
    let b5: u8 = ((v >> 40) & 0xff) as u8;
    let b4: u8 = ((v >> 32) & 0xff) as u8;
    let b3: u8 = ((v >> 24) & 0xff) as u8;
    let b2: u8 = ((v >> 16) & 0xff) as u8;
    let b1: u8 = ((v >> 8) & 0xff) as u8;
    let b0: u8 = (v & 0xff) as u8;
    proof {
        assert(b5 == mac_byte(v, 5) && b4 == mac_byte(v, 4) && b3 == mac_byte(v, 3) && b2
            == mac_byte(v, 2) && b1 == mac_byte(v, 1) && b0 == mac_byte(v, 0)) by (bit_vector)
            requires
                b5 == ((v >> 40) & 0xff) as u8,
                b4 == ((v >> 32) & 0xff) as u8,
                b3 == ((v >> 24) & 0xff) as u8,
                b2 == ((v >> 16) & 0xff) as u8,
                b1 == ((v >> 8) & 0xff) as u8,
                b0 == (v & 0xff) as u8,
        ;
    }
    let mut s = hex_pair(b5);
    s.append(":");
    s.append(hex_pair(b4).as_str());
    s.append(":");
    s.append(hex_pair(b3).as_str());
    s.append(":");
    s.append(hex_pair(b2).as_str());
    s.append(":");
    s.append(hex_pair(b1).as_str());
    s.append(":");
    s.append(hex_pair(b0).as_str());
    proof {
        reveal_strlit(":");
        assert(s@ =~= spec_format_mac(v));
    }
    s
}

/// The byte of `ip` at position `k`, counting from the least significant.
pub open spec fn ip_octet(ip: u32, k: int) -> u8 {
    ((ip >> ((8 * k) as u32)) & 0xff) as u8
}

/// The byte of a hardware address at position `k`, counting from the least
/// significant.
pub open spec fn mac_byte(mac: u64, k: int) -> u8 {
    ((mac >> ((8 * k) as u64)) & 0xff) as u8
}

/// Assemble an IP address from its four octets, most significant first.
pub fn ip_from_octets(a: u8, b: u8, c: u8, d: u8) -> (r: u32)
    ensures
        r == a * 0x100_0000 + b * 0x1_0000 + c * 0x100 + d,
        ip_octet(r, 3) == a,
        ip_octet(r, 2) == b,
        ip_octet(r, 1) == c,
        ip_octet(r, 0) == d,
{
    let r = (a as u32) << 24 | (b as u32) << 16 | (c as u32) << 8 | (d as u32);
    proof {
        assert(r == a * 0x100_0000 + b * 0x1_0000 + c * 0x100 + d
            && ((r >> 24) & 0xff) as u8 == a
            && ((r >> 16) & 0xff) as u8 == b
            && ((r >> 8) & 0xff) as u8 == c
            && ((r >> 0) & 0xff) as u8 == d) by (bit_vector)
            requires
                r == (a as u32) << 24 | (b as u32) << 16 | (c as u32) << 8 | (d as u32),
        ;
    }
    r
}

/// Assemble a hardware address from its six bytes, most significant first.
pub fn mac_from_bytes(m0: u8, m1: u8, m2: u8, m3: u8, m4: u8, m5: u8) -> (r: u64)
    ensures
        r < MAC_LIMIT,
        mac_byte(r, 5) == m0,
        mac_byte(r, 4) == m1,
        mac_byte(r, 3) == m2,
        mac_byte(r, 2) == m3,
        mac_byte(r, 1) == m4,
        mac_byte(r, 0) == m5,
{
    let r = (m0 as u64) << 40 | (m1 as u64) << 32 | (m2 as u64) << 24 | (m3 as u64) << 16
        | (m4 as u64) << 8 | (m5 as u64);
    proof {
        assert(r < 0x1_0000_0000_0000
            && ((r >> 40) & 0xff) as u8 == m0
            && ((r >> 32) & 0xff) as u8 == m1
            && ((r >> 24) & 0xff) as u8 == m2
            && ((r >> 16) & 0xff) as u8 == m3
            && ((r >> 8) & 0xff) as u8 == m4
            && ((r >> 0) & 0xff) as u8 == m5) by (bit_vector)
            requires
                r == (m0 as u64) << 40 | (m1 as u64) << 32 | (m2 as u64) << 24
                    | (m3 as u64) << 16 | (m4 as u64) << 8 | (m5 as u64),
        ;
    }
    r
}

} // verus!
