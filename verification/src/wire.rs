//! The pre-parsed representation of a TCP segment and its carrier types.
//!
//! Encoding and decoding of the wire format is the business of the
//! parsing library around this core; the state machine only ever sees
//! and produces these plain representations.

use vstd::prelude::*;
use crate::seqnum::SeqNumber;

verus! {

/// An IP address, version 4 or 6, or the unspecified address.
///
/// Only the identity of an address matters to the connection core; the
/// bytes are packed into plain integers.
#[derive(Clone, Copy, Debug, Hash, PartialEq, Eq, Structural)]
pub enum Address {
    /// No address given.
    Unspecified,
    /// An IPv4 address, its four octets packed big-endian.
    Ipv4(u32),
    /// An IPv6 address, its sixteen octets packed big-endian.
    Ipv6(u128),
}

impl Address {
    /// The IPv4 address `a.b.c.d`.
    pub fn v4(a: u8, b: u8, c: u8, d: u8) -> (r: Address)
        ensures
            r == Address::Ipv4((a * 0x100_0000 + b * 0x1_0000 + c * 0x100 + d) as u32),
    {
        Address::Ipv4(
            (a as u32) * 0x100_0000 + (b as u32) * 0x1_0000 + (c as u32) * 0x100 + (d as u32),
        )
    }
}

/// The control flags of a segment that the state machine inspects.
///
/// An ACK is not a flag here: a segment acknowledges iff its
/// `ack_number` is present.  Urgent data is deliberately ignored.
#[derive(Clone, Copy, Debug, Hash, PartialEq, Eq, Structural)]
pub struct Flags {
    /// Synchronize sequence numbers; occupies one sequence point.
    pub syn: bool,
    /// No more data from the sender; occupies one sequence point.
    pub fin: bool,
    /// Reset the connection.
    pub rst: bool,
}

impl Default for Flags {
    /// No control flag set.
    fn default() -> (r: Self)
        ensures
            r == (Flags { syn: false, fin: false, rst: false }),
    {
        Flags { syn: false, fin: false, rst: false }
    }
}

impl Flags {
    /// Whether the SYN flag is set.
    pub fn syn(&self) -> (r: bool)
        ensures
            r == self.syn,
    {
        self.syn
    }

    /// Whether the FIN flag is set.
    pub fn fin(&self) -> (r: bool)
        ensures
            r == self.fin,
    {
        self.fin
    }

    /// Whether the RST flag is set.
    pub fn rst(&self) -> (r: bool)
        ensures
            r == self.rst,
    {
        self.rst
    }

    /// Set or clear the FIN flag.
    pub fn set_fin(&mut self, fin: bool)
        ensures
            *final(self) == (Flags { fin, ..*old(self) }),
    {
        self.fin = fin;
    }
}

/// A pre-parsed TCP segment: everything of the header and options that
/// the connection core reads or fills in.
#[derive(Clone, Copy, Debug, PartialEq)]
pub struct Repr {
    /// The sender's port.
    pub src_port: u16,
    /// The receiver's port.
    pub dst_port: u16,
    /// The sequence number of the first sequence point of the segment.
    pub seq_number: SeqNumber,
    /// The acknowledged sequence number, when the segment acknowledges.
    pub ack_number: Option<SeqNumber>,
    /// The SYN/FIN/RST control flags.
    pub flags: Flags,
    /// The unscaled window field.
    pub window_len: u16,
    /// The window-scale option of a SYN, when present.
    pub window_scale: Option<u8>,
    /// The maximum-segment-size option of a SYN, when present.
    pub max_seg_size: Option<u16>,
    /// Whether the SACK-permitted option was present.
    pub sack_permitted: bool,
    /// Selective acknowledgement blocks; negotiated but never filled.
    pub sack_ranges: [Option<(u32, u32)>; 3],
    /// The number of payload bytes carried.
    pub payload_len: u16,
}

/// The length of a segment in sequence space: its payload plus one
/// point each for SYN and FIN.
pub open spec fn spec_sequence_len(r: Repr) -> int {
    r.payload_len + (if r.flags.syn { 1int } else { 0 }) + (if r.flags.fin { 1int } else { 0 })
}

impl Repr {
    /// The length of the segment in sequence space, including SYN or FIN.
    pub fn sequence_len(&self) -> (r: usize)
        ensures
            r == spec_sequence_len(*self),
    {
        self.payload_len as usize
            + (if self.flags.syn { 1usize } else { 0 })
            + (if self.flags.fin { 1usize } else { 0 })
    }
}

} // verus!
