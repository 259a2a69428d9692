//! The state machine of a single TCP connection.
//!
//! A `Connection` is a Mealy machine: packets arrive as `InPacket` and
//! yield `Signals` for the layer above, while the transmit half of the
//! stack hands in `AvailableBytes` and `ReceivedSegment` descriptors and
//! receives the `Segment` to put on the wire.  Every transition is a
//! pure function of the connection state and the call's arguments; the
//! spec functions beside each handler state that function exactly.

use vstd::prelude::*;
use vstd::arithmetic::power2::pow2;
use vstd::arithmetic::power2::lemma2_to64;
use vstd::bits::lemma_u32_shl_is_mul;
use vstd::bits::lemma_u32_shr_is_div;

use crate::endpoint::EntryKey;
use crate::endpoint::Slot;
use crate::endpoint::SlotKey;
use crate::endpoint::FourTuple;
use crate::endpoint::IsnGenerator;
use crate::endpoint::PortMap;
use crate::endpoint::spec_isn;
use crate::endpoint::spec_remapped;
use crate::seqnum::SeqNumber;
use crate::seqnum::seq_add;
use crate::seqnum::seq_delta;
use crate::seqnum::seq_le;
use crate::seqnum::seq_lt;
use crate::time::Duration;
use crate::time::Expiration;
use crate::time::Instant;
use crate::time::spec_earlier_of;
use crate::wire::Address;
use crate::wire::Flags;
use crate::wire::Repr;
use crate::wire::spec_sequence_len;

verus! {

/// State enum of the state machine.
#[derive(Clone, Copy, Debug, Hash, PartialEq, Eq, Structural)]
pub enum State {
    /// Marker state of an unintended or uninitialized connection.
    Closed,
    /// A listening connection, akin to an open server socket.
    Listen,
    /// An open connection request of our own.
    SynSent,
    /// A connection request we intend to answer, waiting on the ack.
    SynReceived,
    /// An open connection.
    Established,
    /// We have closed our side of the connection.
    FinWait,
    /// Both sides closed, but we do not know the other side knows.
    Closing,
    /// Both sides recognized the connection as closed.
    TimeWait,
    /// The other side closed its half of the connection.
    CloseWait,
    /// We closed after the other side already closed its half.
    LastAck,
}

impl Default for State {
    /// An uninitialized connection is closed.
    fn default() -> (r: Self)
        ensures
            r == State::Closed,
    {
        State::Closed
    }
}

/// The connection state relevant for outgoing segments, `SND` of the
/// protocol specification.
#[derive(Clone, Copy, Debug, Hash, PartialEq)]
pub struct Send {
    /// The oldest not yet acknowledged sequence number, `SND.UNA`.
    pub unacked: SeqNumber,
    /// The next sequence number to use for transmission, `SND.NXT`.
    pub next: SeqNumber,
    /// The time of the last valid packet.
    pub last_time: Instant,
    /// Bytes buffered by the user but not yet on the wire.
    pub unsent: usize,
    /// The unscaled send window indicated by the receiver, `SND.WND`.
    pub window: u16,
    /// The window scale parameter, at most 14.
    pub window_scale: u8,
    /// The initial sequence number, `ISS`; immutable after open.
    pub initial_seq: SeqNumber,
}

/// The connection state relevant for incoming segments, `RCV` of the
/// protocol specification.
#[derive(Clone, Copy, Debug, Hash, PartialEq)]
pub struct Receive {
    /// The next expected sequence number, `RCV.NXT`.
    pub next: SeqNumber,
    /// The highest sequence number we have publicly acknowledged.
    ///
    /// With delayed acknowledgements this may lag `next`; what the peer
    /// has been told is always `acked`, while reassembly uses `next`.
    pub acked: SeqNumber,
    /// The time the last segment was received.
    pub last_time: Instant,
    /// The unscaled receive window indicated by us.
    pub window: u16,
    /// The window scale parameter, at most 14.
    pub window_scale: u8,
    /// The initial receive sequence number, `IRS`.
    pub initial_seq: SeqNumber,
}

/// TCP Reno flow control and congestion avoidance state.
#[derive(Clone, Copy, Debug, Hash, PartialEq)]
pub struct Flow {
    /// Decider between slow start and congestion avoidance.
    pub ssthresh: u32,
    /// The window dictated by congestion.
    pub congestion_window: u32,
    /// The sequence number that must be acknowledged to end fast
    /// recovery.  Initially the initial sequence number.
    pub recover: SeqNumber,
}

/// The transmission control block of one connection.
#[derive(Clone, Copy, Debug, Hash, PartialEq)]
pub struct Connection {
    /// The current state of the state machine.
    pub current: State,
    /// The previous state of the state machine.
    ///
    /// Kept so that a reset can be handled knowing how the half-open
    /// connection came to be formed.
    pub previous: State,
    /// The flow control mechanism, hard coded as TCP Reno.
    pub flow_control: Flow,
    /// The indicated receive window of the other side.
    pub receive_window: u32,
    /// The size of the largest segment we may transmit, `SMSS`.
    pub sender_maximum_segment_size: u16,
    /// The size of the largest segment the receiver accepts, `RMSS`.
    pub receiver_maximum_segment_size: u16,
    /// The received byte offset when the last ack was sent.
    pub last_ack_receive_offset: SeqNumber,
    /// When the next pending ack must be sent at the latest.
    pub ack_timer: Expiration,
    /// Timeout for sending an ack after a new segment, at most 500 ms.
    pub ack_timeout: Duration,
    /// When to start retransmission or detect a loss.
    pub retransmission_timer: Instant,
    /// The duration of the retransmission timer.
    pub retransmission_timeout: Duration,
    /// Idle time in both directions after which the window restarts.
    pub restart_timeout: Duration,
    /// Whether selective acknowledgements were negotiated.
    pub selective_acknowledgements: bool,
    /// Counter of duplicate acks, saturating.
    pub duplicate_ack: u8,
    /// The sending state.
    pub send: Send,
    /// The receiving state.
    pub recv: Receive,
}

/// Output signals of an ingress handler call.
#[derive(Clone, Copy, Debug, PartialEq)]
#[must_use]
pub struct Signals {
    /// The slot should be deleted after this call returns.
    pub delete: bool,
    /// The user should be told the connection was reset.
    pub reset: bool,
    /// There is valid data in the packet to receive.
    pub receive: Option<ReceivedSegment>,
    /// Whether the caller could send data now.
    pub may_send: bool,
    /// A TCP answer that must be put on the wire.
    pub answer: Option<Repr>,
}

impl Default for Signals {
    /// No signal raised.
    fn default() -> (r: Self)
        ensures
            r == spec_signals_none(),
    {
        Signals { delete: false, reset: false, receive: None, may_send: false, answer: None }
    }
}

/// The `Signals` value that raises nothing.
pub open spec fn spec_signals_none() -> Signals {
    Signals { delete: false, reset: false, receive: None, may_send: false, answer: None }
}

/// A `Signals` value that only carries an answer segment.
pub open spec fn spec_signals_answer(answer: Repr) -> Signals {
    Signals { answer: Some(answer), ..spec_signals_none() }
}

/// A descriptor of the transmission buffer as seen from `SND.UNA`.
#[derive(Clone, Copy, Debug, PartialEq)]
pub struct AvailableBytes {
    /// Set when no more data will come.
    pub fin: bool,
    /// The total bytes buffered for retransmission plus new data.
    pub total: usize,
}

/// A descriptor of an accepted incoming segment.
///
/// Acknowledges a segment accepted by the receive buffer; hand it back
/// to [`Connection::set_recv_ack`] once the data has been read.  The
/// fields must be those of the segment most recently accepted.
#[derive(Clone, Copy, Debug, PartialEq)]
#[must_use]
pub struct ReceivedSegment {
    /// Whether the segment carried a SYN, one point before the data.
    pub syn: bool,
    /// Whether the segment carried a FIN, one point after the data.
    pub fin: bool,
    /// The length of the actual data.
    pub data_len: usize,
    /// The sequence number at the start of the segment.
    pub begin: SeqNumber,
    /// The timestamp for acknowledging the segment.
    pub timestamp: Instant,
}

/// An ingoing communication.
#[derive(Clone, Copy, Debug, PartialEq)]
pub struct InPacket {
    /// Metadata of the TCP layer packet.
    pub segment: Repr,
    /// The sender address.
    pub from: Address,
    /// The arrival time of the packet at the interface.
    pub time: Instant,
}

/// An outgoing segment.
#[derive(Clone, Copy, Debug, PartialEq)]
pub struct Segment {
    /// Representation of the packet.
    pub repr: Repr,
    /// The range of data to include, indexed into the caller's
    /// retransmit buffer.
    pub begin: usize,
    /// Past-the-end index of the data to include.
    pub end: usize,
}

/// Output signals of an egress handler call.
#[derive(Clone, Copy, Debug, PartialEq)]
#[must_use]
pub struct OutSignals {
    /// The slot should be deleted after this call returns.
    pub delete: bool,
    /// A segment that was selected to be generated.
    pub segment: Option<Segment>,
}

/// Internal classification of a received acknowledgement number.
#[derive(Clone, Copy, Debug, PartialEq, Eq, Structural)]
pub enum AckUpdate {
    /// Below everything outstanding; stale, no action.
    TooLow,
    /// Exactly the oldest unacknowledged number again.
    Duplicate,
    /// A genuine advance by the given number of sequence points.
    Updated {
        /// How many new sequence points the ack covered.
        new_bytes: u32,
    },
    /// Beyond everything we ever sent.
    Unsent,
}

/// A TCP representation with the connection metadata left out: what a
/// handler decides about a segment before the ports are filled in.
#[derive(Clone, Copy, Debug, PartialEq)]
pub struct InnerRepr {
    /// The control flags of the answer.
    pub flags: Flags,
    /// The sequence number of the answer.
    pub seq_number: SeqNumber,
    /// The acknowledged number, when the answer acknowledges.
    pub ack_number: Option<SeqNumber>,
    /// The unscaled window field of the answer.
    pub window_len: u16,
    /// The window-scale option, when advertised.
    pub window_scale: Option<u8>,
    /// The maximum-segment-size option, when advertised.
    pub max_seg_size: Option<u16>,
    /// Whether the SACK-permitted option is advertised.
    pub sack_permitted: bool,
    /// The number of payload bytes that will be carried.
    pub payload_len: u16,
}

/// The wire representation of `inner` sent from `src` to `dst`, with
/// empty selective-acknowledgement blocks.
pub open spec fn spec_send_impl(inner: InnerRepr, src: u16, dst: u16) -> Repr {
    Repr {
        src_port: src,
        dst_port: dst,
        seq_number: inner.seq_number,
        flags: inner.flags,
        ack_number: inner.ack_number,
        window_len: inner.window_len,
        window_scale: inner.window_scale,
        max_seg_size: inner.max_seg_size,
        sack_permitted: inner.sack_permitted,
        sack_ranges: [None, None, None],
        payload_len: inner.payload_len,
    }
}

impl InnerRepr {
    /// Address a representation back to the sender of `incoming`.
    pub(crate) fn send_back(&self, incoming: &Repr) -> (r: Repr)
        ensures
            r == spec_send_impl(*self, incoming.dst_port, incoming.src_port),
    {
        self.send_impl(incoming.dst_port, incoming.src_port)
    }

    /// Address a representation to the remote of `tuple`.
    pub(crate) fn send_to(&self, tuple: FourTuple) -> (r: Repr)
        ensures
            r == spec_send_impl(*self, tuple.local_port, tuple.remote_port),
    {
        self.send_impl(tuple.local_port, tuple.remote_port)
    }

    fn send_impl(&self, src: u16, dst: u16) -> (r: Repr)
        ensures
            r == spec_send_impl(*self, src, dst),
    {
        Repr {
            src_port: src,
            dst_port: dst,
            seq_number: self.seq_number,
            flags: self.flags,
            ack_number: self.ack_number,
            window_len: self.window_len,
            window_scale: self.window_scale,
            max_seg_size: self.max_seg_size,
            sack_permitted: self.sack_permitted,
            sack_ranges: [None, None, None],
            payload_len: self.payload_len,
        }
    }
}

impl OutSignals {
    /// No segment, and the control block stays.
    pub fn none() -> (r: Self)
        ensures
            r == spec_out_none(),
    {
        OutSignals { delete: false, segment: None }
    }

    /// Send a segment but do not delete.
    pub fn segment(segment: Segment) -> (r: Self)
        ensures
            r == spec_out_segment(segment),
    {
        OutSignals { segment: Some(segment), delete: false }
    }
}

/// The `OutSignals` value that raises nothing.
pub open spec fn spec_out_none() -> OutSignals {
    OutSignals { delete: false, segment: None }
}

/// The `OutSignals` value that only carries a segment.
pub open spec fn spec_out_segment(segment: Segment) -> OutSignals {
    OutSignals { delete: false, segment: Some(segment) }
}

/// The length of an accepted segment in sequence space: data plus one
/// point each for SYN and FIN.
pub open spec fn spec_seg_len(m: ReceivedSegment) -> int {
    m.data_len + (if m.syn { 1int } else { 0 }) + (if m.fin { 1int } else { 0 })
}

/// The past-the-end sequence number of an accepted segment.
pub open spec fn spec_seg_end(m: ReceivedSegment) -> SeqNumber {
    SeqNumber(seq_add(m.begin.0, spec_seg_len(m)))
}

impl ReceivedSegment {
    /// The total length in sequence space, including SYN or FIN.
    pub fn sequence_len(&self) -> (r: usize)
        requires
            self.data_len + 2 <= u32::MAX,
        ensures
            r == spec_seg_len(*self),
    {
        self.data_len
            + (if self.syn { 1usize } else { 0 })
            + (if self.fin { 1usize } else { 0 })
    }

    /// Only acknowledge the segment up to some sequence point.
    ///
    /// Removes the FIN flag if the acknowledged part does not cover
    /// every byte up to that point.
    pub fn acked_until(&self, ack: SeqNumber) -> (r: Self)
        requires
            self.data_len + 2 <= u32::MAX,
        ensures
            r == (ReceivedSegment {
                fin: self.fin && seq_le(spec_seg_end(*self).0, seq_add(ack.0, 1)),
                ..*self
            }),
    {
        ReceivedSegment {
            syn: self.syn,
            fin: self.fin && self.sequence_end().windowed_le(ack.wrapping_add(1)),
            begin: self.begin,
            data_len: self.data_len,
            timestamp: self.timestamp,
        }
    }

    /// The sequence number of the first data byte in the segment.
    pub fn data_begin(&self) -> (r: SeqNumber)
        ensures
            r.0 == seq_add(self.begin.0, if self.syn { 1int } else { 0 }),
    {
        self.begin.wrapping_add(if self.syn { 1u32 } else { 0 })
    }

    /// The sequence number just past the last data byte in the segment.
    pub fn data_end(&self) -> (r: SeqNumber)
        requires
            self.data_len + 1 <= u32::MAX,
        ensures
            r.0 == seq_add(self.begin.0, (if self.syn { 1int } else { 0 }) + self.data_len),
    {
        self.begin
            .wrapping_add(if self.syn { 1u32 } else { 0 })
            .wrapping_add_usize(self.data_len)
    }

    /// Whether `seq` lies within the sequence window of this segment.
    pub fn contains_in_window(&self, seq: SeqNumber) -> (r: bool)
        requires
            self.data_len + 2 <= u32::MAX,
        ensures
            r == crate::seqnum::seq_in_window(self.begin.0, seq.0, spec_seg_len(*self)),
    {
        self.begin.contains_in_window(seq, self.sequence_len())
    }

    /// The past-the-end sequence number with which to ack the segment.
    pub fn sequence_end(&self) -> (r: SeqNumber)
        requires
            self.data_len + 2 <= u32::MAX,
        ensures
            r == spec_seg_end(*self),
    {
        let len = self.sequence_len();
        self.begin.wrapping_add_usize(len)
    }
}

/// Under a scale of at most 14, the scale factor is at most `2^14` and
/// the scaled window fits comfortably below `2^30`.
pub(crate) proof fn lemma_pow2_scale(scale: u8)
    requires
        scale <= 14,
    ensures
        1 <= pow2(scale as nat) <= 0x4000,
{
    lemma2_to64();
    vstd::arithmetic::power2::lemma_pow2_pos(scale as nat);
    if scale < 14 {
        vstd::arithmetic::power2::lemma_pow2_strictly_increases(scale as nat, 14);
    }
}

impl Send {
    /// Classify an arriving acknowledgement number and advance
    /// `unacked` past genuinely acknowledged sequence points.
    pub fn incoming_ack(&mut self, seq: SeqNumber) -> (r: AckUpdate)
        ensures
            ({
                let (s, u) = spec_incoming_ack(*old(self), seq);
                *final(self) == s && r == u
            }),
    {
        if seq.windowed_lt(self.unacked) {
            AckUpdate::TooLow
        } else if seq.0 == self.unacked.0 {
            AckUpdate::Duplicate
        } else if seq.windowed_le(self.next) {
            let new_bytes = seq.wrapping_sub(self.unacked);
            self.unacked = seq;
            AckUpdate::Updated { new_bytes }
        } else {
            AckUpdate::Unsent
        }
    }

    /// The actual window: the indicated window widened by the scale.
    pub fn window(&self) -> (r: u32)
        requires
            self.window_scale <= 14,
        ensures
            r == spec_window_bytes(*self),
    {
        proof {
            lemma_pow2_scale(self.window_scale);
            vstd::arithmetic::mul::lemma_mul_upper_bound(
                self.window as int, u16::MAX as int, pow2(self.window_scale as nat) as int, 0x4000,
            );
            lemma_u32_shl_is_mul(self.window as u32, self.window_scale as u32);
        }
        (self.window as u32) << (self.window_scale as u32)
    }

    /// The number of sequence points in flight.
    pub fn in_flight(&self) -> (r: u32)
        requires
            seq_le(self.unacked.0, self.next.0),
        ensures
            r == seq_delta(self.unacked.0, self.next.0),
    {
        self.next.wrapping_sub(self.unacked)
    }
}

/// How an arriving acknowledgement number transforms the send state.
pub open spec fn spec_incoming_ack(s: Send, seq: SeqNumber) -> (Send, AckUpdate) {
    if seq_lt(seq.0, s.unacked.0) {
        (s, AckUpdate::TooLow)
    } else if seq.0 == s.unacked.0 {
        (s, AckUpdate::Duplicate)
    } else if seq_le(seq.0, s.next.0) {
        (
            Send { unacked: seq, ..s },
            AckUpdate::Updated { new_bytes: seq_delta(s.unacked.0, seq.0) as u32 },
        )
    } else {
        (s, AckUpdate::Unsent)
    }
}

/// The send window in bytes: the indicated window widened by the scale.
pub open spec fn spec_window_bytes(s: Send) -> int {
    s.window * pow2(s.window_scale as nat)
}

impl Receive {
    /// Whether `seq` lies in the receive window starting at `next`.
    pub fn in_window(&self, seq: SeqNumber) -> (r: bool)
        ensures
            r == crate::seqnum::seq_in_window(self.next.0, seq.0, self.window as int),
    {
        self.next.contains_in_window(seq, self.window as usize)
    }

    /// Set the indicated window up from a byte count, rounding up to
    /// the smallest scaled-down window that covers it, capped at the
    /// largest representable scaled window.
    pub fn update_window(&mut self, window: usize)
        requires
            old(self).window_scale <= 14,
        ensures
            *final(self) == (Receive { window: spec_scaled_window(old(self).window_scale, window as int), ..*old(self) }),
    {
        proof {
            lemma_pow2_scale(self.window_scale);
            lemma_u32_shl_is_mul(u16::MAX as u32, self.window_scale as u32);
            lemma_u32_shl_is_mul(1u32, self.window_scale as u32);
        }
        let max: u32 = (u16::MAX as u32) << (self.window_scale as u32);
        let wide: u32 = if window > u32::MAX as usize { u32::MAX } else { window as u32 };
        let capped: u32 = if wide < max { wide } else { max };
        proof {
            lemma_u32_shr_is_div(capped, self.window_scale as u32);
            lemma_scaled_window_fits(self.window_scale, capped);
        }
        let scaled_down: u32 = (capped >> (self.window_scale as u32))
            + (if capped % (1u32 << (self.window_scale as u32)) != 0 { 1 } else { 0 });
        self.window = scaled_down as u16;
    }
}

/// The unscaled window that covers `window` bytes under `scale`:
/// the byte count capped at the largest representable scaled window,
/// then divided by the scale factor, rounding up.
pub open spec fn spec_scaled_window(scale: u8, window: int) -> u16 {
    let max = u16::MAX * pow2(scale as nat);
    let wide = if window > u32::MAX { u32::MAX as int } else { window };
    let capped = if wide < max { wide } else { max };
    let p = pow2(scale as nat) as int;
    (capped / p + (if capped % p != 0 { 1int } else { 0 })) as u16
}

/// Rounding a capped byte count up to scaled-window units stays within
/// the sixteen-bit window field.
proof fn lemma_scaled_window_fits(scale: u8, capped: u32)
    requires
        scale <= 14,
        capped <= u16::MAX * pow2(scale as nat),
    ensures
        capped as int / (pow2(scale as nat) as int)
            + (if capped as int % (pow2(scale as nat) as int) != 0 { 1int } else { 0 }) <= u16::MAX,
{
    let p = pow2(scale as nat) as int;
    let c = capped as int;
    vstd::arithmetic::power2::lemma_pow2_pos(scale as nat);
    vstd::arithmetic::mul::lemma_mul_is_commutative(u16::MAX as int, p);
    if c % p != 0 {
        assert(c != u16::MAX * p) by {
            vstd::arithmetic::div_mod::lemma_mod_multiples_basic(u16::MAX as int, p);
        }
        assert(c / p < u16::MAX) by {
            vstd::arithmetic::div_mod::lemma_multiply_divide_lt(c, p, u16::MAX as int);
        }
    } else {
        assert(c / p <= (p * u16::MAX) / p) by {
            vstd::arithmetic::div_mod::lemma_div_is_ordered(c, p * u16::MAX, p);
        }
        assert((p * u16::MAX) / p == u16::MAX) by {
            vstd::arithmetic::div_mod::lemma_div_multiples_vanish(u16::MAX as int, p);
        }
    }
}

/// The flag set with nothing raised.
pub open spec fn spec_no_flags() -> Flags {
    Flags { syn: false, fin: false, rst: false }
}

/// The flag set of a reset segment.
pub open spec fn spec_rst_flags() -> Flags {
    Flags { syn: false, fin: false, rst: true }
}

/// The flag set of a synchronize segment.
pub open spec fn spec_syn_flags() -> Flags {
    Flags { syn: true, fin: false, rst: false }
}

/// The connection state of a freshly zeroed, closed control block.
pub open spec fn spec_zeroed() -> Connection {
    Connection {
        current: State::Closed,
        previous: State::Closed,
        flow_control: Flow {
            ssthresh: 0,
            congestion_window: 0,
            recover: SeqNumber(0),
        },
        receive_window: 0,
        sender_maximum_segment_size: 0,
        receiver_maximum_segment_size: 0,
        last_ack_receive_offset: SeqNumber(0),
        ack_timer: Expiration::Never,
        ack_timeout: Duration { millis: 0 },
        retransmission_timer: Instant { millis: 0 },
        retransmission_timeout: Duration { millis: 0 },
        restart_timeout: Duration { millis: 0 },
        selective_acknowledgements: false,
        duplicate_ack: 0,
        send: Send {
            unacked: SeqNumber(0),
            next: SeqNumber(0),
            last_time: Instant { millis: 0 },
            unsent: 0,
            window: 0,
            window_scale: 0,
            initial_seq: SeqNumber(0),
        },
        recv: Receive {
            next: SeqNumber(0),
            acked: SeqNumber(0),
            last_time: Instant { millis: 0 },
            window: 0,
            window_scale: 0,
            initial_seq: SeqNumber(0),
        },
    }
}

/// A state transition: the current state becomes the previous one.
pub open spec fn spec_change_state(c: Connection, new: State) -> Connection {
    Connection { previous: c.current, current: new, ..c }
}

/// Catching the public acknowledgement point up to everything received:
/// the connection afterwards, and the number to put in the ack field.
pub open spec fn spec_ack_all(c: Connection) -> (Connection, SeqNumber) {
    (
        Connection {
            recv: Receive { acked: c.recv.next, ..c.recv },
            ack_timer: Expiration::Never,
            ..c
        },
        c.recv.next,
    )
}

/// A bare acknowledgement of everything received, addressed to `remote`:
/// the connection afterwards, and the representation to send.
pub open spec fn spec_repr_ack_all(c: Connection, remote: FourTuple) -> (Connection, Repr) {
    (
        spec_ack_all(c).0,
        spec_send_impl(
            InnerRepr {
                flags: spec_no_flags(),
                seq_number: c.send.next,
                ack_number: Some(c.recv.next),
                window_len: c.recv.window,
                window_scale: None,
                max_seg_size: None,
                sack_permitted: false,
                payload_len: 0,
            },
            remote.local_port,
            remote.remote_port,
        ),
    )
}

/// A bare acknowledgement as a segment carrying no data.
pub open spec fn spec_segment_ack_all(c: Connection, remote: FourTuple) -> (Connection, Segment) {
    (
        spec_repr_ack_all(c, remote).0,
        Segment { repr: spec_repr_ack_all(c, remote).1, begin: 0, end: 0 },
    )
}

/// A synchronize segment, acknowledging received data iff `ack`:
/// the connection afterwards, and the representation to send.
pub open spec fn spec_send_open(c: Connection, ack: bool, to: FourTuple) -> (Connection, Repr) {
    (
        if ack { spec_ack_all(c).0 } else { c },
        spec_send_impl(
            InnerRepr {
                flags: spec_syn_flags(),
                seq_number: c.send.initial_seq,
                ack_number: if ack { Some(c.recv.next) } else { None },
                window_len: 0,
                window_scale: Some(c.send.window_scale),
                max_seg_size: None,
                sack_permitted: false,
                payload_len: 0,
            },
            to.local_port,
            to.remote_port,
        ),
    )
}

/// Closing from a reset the remote sent: the connection is closed and
/// the caller is told to delete the slot and to notify the user.
pub open spec fn spec_remote_reset(c: Connection) -> (Connection, Signals) {
    (
        spec_change_state(c, State::Closed),
        Signals { reset: true, delete: true, ..spec_signals_none() },
    )
}

/// Closing from an invalid incoming packet: as `spec_remote_reset`,
/// but we also answer with a reset of our own.
pub open spec fn spec_signal_reset(c: Connection, tuple: FourTuple) -> (Connection, Signals) {
    let c1 = spec_change_state(c, State::Closed);
    (
        spec_ack_all(c1).0,
        Signals {
            reset: true,
            delete: true,
            answer: Some(spec_send_impl(
                InnerRepr {
                    flags: spec_rst_flags(),
                    seq_number: c.send.next,
                    ack_number: Some(c.recv.next),
                    window_len: 0,
                    window_scale: None,
                    max_seg_size: None,
                    sack_permitted: false,
                    payload_len: 0,
                },
                tuple.local_port,
                tuple.remote_port,
            )),
            ..spec_signals_none()
        },
    )
}

/// An explicit acknowledgement of all data, raised as a signal.
pub open spec fn spec_signal_ack_all(c: Connection, remote: FourTuple) -> (Connection, Signals) {
    (
        spec_repr_ack_all(c, remote).0,
        spec_signals_answer(spec_repr_ack_all(c, remote).1),
    )
}

/// The acceptability test on an open connection: an empty segment must
/// sit at or in the receive window, a data-bearing segment must overlap
/// it with its first or last byte.
pub open spec fn spec_ingress_acceptable(c: Connection, seg: Repr) -> bool {
    if seg.payload_len == 0 && c.recv.window == 0 {
        seg.seq_number.0 == c.recv.next.0
    } else if seg.payload_len == 0 {
        crate::seqnum::seq_in_window(c.recv.next.0, seg.seq_number.0, c.recv.window as int)
    } else if c.recv.window == 0 {
        false
    } else {
        crate::seqnum::seq_in_window(c.recv.next.0, seg.seq_number.0, c.recv.window as int)
            || crate::seqnum::seq_in_window(
                c.recv.next.0,
                seq_add(seg.seq_number.0, seg.payload_len - 1),
                c.recv.window as int,
            )
    }
}

/// The congestion window after a genuine acknowledgement of `new_bytes`
/// sequence points: leave fast recovery, or grow by slow start or by
/// congestion avoidance.
pub open spec fn spec_window_update(c: Connection, new_bytes: u32) -> u32 {
    let cwnd = c.flow_control.congestion_window;
    if c.duplicate_ack > 0 {
        c.flow_control.ssthresh
    } else if cwnd <= c.flow_control.ssthresh {
        if cwnd + cwnd > u32::MAX { u32::MAX } else { (cwnd + cwnd) as u32 }
    } else {
        let update: u32 = if c.sender_maximum_segment_size as u32 <= new_bytes {
            c.sender_maximum_segment_size as u32
        } else {
            new_bytes
        };
        if cwnd + update > u32::MAX { u32::MAX } else { (cwnd + update) as u32 }
    }
}

/// The restart window after an idle period: the congestion window
/// capped at the send window in bytes.
pub open spec fn spec_restart_window(c: Connection) -> u32 {
    if c.flow_control.congestion_window as int <= spec_window_bytes(c.send) {
        c.flow_control.congestion_window
    } else {
        spec_window_bytes(c.send) as u32
    }
}

/// What the closed-state responder answers: resets are dropped, an
/// acknowledged number is reset verbatim, anything else is reset by
/// acknowledging its whole sequence length.  The state never changes.
pub open spec fn spec_arrives_closed(c: Connection, seg: Repr) -> Signals {
    if seg.flags.rst {
        spec_signals_none()
    } else {
        match seg.ack_number {
            Some(ack) => spec_signals_answer(spec_send_impl(
                InnerRepr {
                    flags: spec_rst_flags(),
                    seq_number: ack,
                    ack_number: None,
                    window_len: 0,
                    window_scale: None,
                    max_seg_size: None,
                    sack_permitted: false,
                    payload_len: 0,
                },
                seg.dst_port,
                seg.src_port,
            )),
            None => spec_signals_answer(spec_send_impl(
                InnerRepr {
                    flags: spec_rst_flags(),
                    seq_number: SeqNumber(0),
                    ack_number: Some(SeqNumber(seq_add(seg.seq_number.0, spec_sequence_len(seg)))),
                    window_len: 0,
                    window_scale: None,
                    max_seg_size: None,
                    sack_permitted: false,
                    payload_len: 0,
                },
                seg.dst_port,
                seg.src_port,
            )),
        }
    }
}

/// The sequence number of the last byte the other side acknowledged,
/// offset so that it always points into the byte sequence space.
pub open spec fn spec_get_send_ack(c: Connection) -> SeqNumber {
    if c.current == State::SynSent {
        SeqNumber(seq_add(c.send.unacked.0, 1))
    } else if (c.current == State::FinWait || c.current == State::Closing
        || c.current == State::TimeWait || c.current == State::LastAck)
        && c.send.unacked.0 == c.send.next.0 {
        SeqNumber(seq_add(c.send.unacked.0, -1))
    } else {
        c.send.unacked
    }
}

/// How acknowledging an accepted segment transforms the connection:
/// the close handshake transitions on a FIN, then the receive pointer
/// advances past the segment and the delayed-ack timer is pulled in.
pub open spec fn spec_set_recv_ack(c: Connection, m: ReceivedSegment) -> Connection {
    let end = spec_seg_end(m);
    let acked_all = c.send.next.0 == c.send.unacked.0;
    let c1 = if (c.current == State::Established && m.fin) || (c.current == State::SynReceived
        && m.fin) {
        spec_change_state(c, State::CloseWait)
    } else if (c.current == State::FinWait && m.fin && acked_all) || (c.current == State::Closing
        && acked_all) {
        Connection {
            retransmission_timer: crate::time::spec_plus(
                m.timestamp,
                crate::time::spec_doubled(c.retransmission_timeout),
            ),
            ..spec_change_state(c, State::TimeWait)
        }
    } else if c.current == State::FinWait && m.fin && !acked_all {
        spec_change_state(c, State::Closing)
    } else {
        c
    };
    Connection {
        recv: Receive { next: end, ..c1.recv },
        ack_timer: spec_earlier_of(
            c1.ack_timer,
            Expiration::When(crate::time::spec_plus(m.timestamp, c.ack_timeout)),
        ),
        ..c1
    }
}

/// Opening a connection: the state machine moves to `SynSent`, the
/// initial sequence number is drawn and transmission is scheduled at
/// once.
pub open spec fn spec_open(c: Connection, isn: u32, time: Instant) -> Connection {
    let c1 = spec_change_state(c, State::SynSent);
    Connection {
        send: Send {
            initial_seq: SeqNumber(isn),
            unacked: SeqNumber(isn),
            next: SeqNumber(seq_add(isn, 1)),
            ..c1.send
        },
        retransmission_timer: time,
        ..c1
    }
}

impl Connection {
    /// Construct a closed connection with zeroed state.
    pub fn zeroed() -> (r: Self)
        ensures
            r == spec_zeroed(),
            r.wf(),
    {
        Connection {
            current: State::Closed,
            previous: State::Closed,
            flow_control: Flow {
                ssthresh: 0,
                congestion_window: 0,
                recover: SeqNumber::default(),
            },
            receive_window: 0,
            sender_maximum_segment_size: 0,
            receiver_maximum_segment_size: 0,
            last_ack_receive_offset: SeqNumber::default(),
            ack_timer: Expiration::Never,
            ack_timeout: Duration::from_millis(0),
            retransmission_timer: Instant::from_millis(0),
            retransmission_timeout: Duration::from_millis(0),
            restart_timeout: Duration::from_millis(0),
            selective_acknowledgements: false,
            duplicate_ack: 0,
            send: Send {
                unacked: SeqNumber::default(),
                next: SeqNumber::default(),
                last_time: Instant::from_millis(0),
                unsent: 0,
                window: 0,
                window_scale: 0,
                initial_seq: SeqNumber::default(),
            },
            recv: Receive {
                next: SeqNumber::default(),
                acked: SeqNumber::default(),
                last_time: Instant::from_millis(0),
                window: 0,
                window_scale: 0,
                initial_seq: SeqNumber::default(),
            },
        }
    }

    /// Realize the effect of an opening SYN packet.
    ///
    /// Only a closed or listening connection may be opened; anything
    /// else is a protocol violation by the caller.
    pub fn open<M: PortMap>(&mut self, time: Instant, entry: &EntryKey<M>) -> (r: Result<
        (),
        crate::Error,
    >)
        ensures
            match old(self).current {
                State::Closed | State::Listen => {
                    &&& r is Ok
                    &&& *final(self) == spec_open(
                        *old(self),
                        spec_isn(entry.isn, entry.tuple, time) as u32,
                        time,
                    )
                },
                _ => r == Result::<(), crate::Error>::Err(crate::Error::Illegal) && *final(self)
                    == *old(self),
            },
    {
        match self.current {
            State::Closed | State::Listen => (),
            _ => {
                return Err(crate::Error::Illegal);
            },
        }

        self.change_state(State::SynSent);
        self.send.initial_seq = entry.initial_seq_num(time);
        self.send.unacked = self.send.initial_seq;
        self.send.next = self.send.initial_seq.wrapping_add(1);
        // Schedule immediate transmission.
        self.retransmission_timer = time;

        Ok(())
    }

    /// Answer packets on a closed socket with resets, except when the
    /// received packet already carries a reset.  No state changes.
    fn arrives_closed(&mut self, incoming: &InPacket) -> (r: Signals)
        ensures
            *final(self) == *old(self),
            r == spec_arrives_closed(*old(self), incoming.segment),
    {
        let segment = &incoming.segment;
        let mut signals = Signals::default();
        if segment.flags.rst() {
            // Avoid answering a reset with a reset.
            return signals;
        }

        if let Some(ack_number) = segment.ack_number {
            signals.answer = Some(
                InnerRepr {
                    flags: Flags { syn: false, fin: false, rst: true },
                    seq_number: ack_number,
                    ack_number: None,
                    window_len: 0,
                    window_scale: None,
                    max_seg_size: None,
                    sack_permitted: false,
                    payload_len: 0,
                }.send_back(segment),
            );
        } else {
            signals.answer = Some(
                InnerRepr {
                    flags: Flags { syn: false, fin: false, rst: true },
                    seq_number: SeqNumber(0),
                    ack_number: Some(segment.seq_number.wrapping_add_usize(segment.sequence_len())),
                    window_len: 0,
                    window_scale: None,
                    max_seg_size: None,
                    sack_permitted: false,
                    payload_len: 0,
                }.send_back(segment),
            );
        }

        signals
    }

    /// Determine whether a packet is acceptable on an open connection.
    fn ingress_acceptable(&self, repr: &Repr) -> (r: bool)
        ensures
            r == spec_ingress_acceptable(*self, *repr),
    {
        match (repr.payload_len, self.recv.window) {
            (0, 0) => repr.seq_number.0 == self.recv.next.0,
            (0, _) => self.recv.in_window(repr.seq_number),
            (_, 0) => false,
            (_, _) => self.recv.in_window(repr.seq_number)
                || self.recv.in_window(repr.seq_number.wrapping_add((repr.payload_len - 1) as u32)),
        }
    }

    /// Close from an incoming reset.
    fn remote_reset_connection(&mut self) -> (r: Signals)
        ensures
            ({
                let (c, sig) = spec_remote_reset(*old(self));
                *final(self) == c && r == sig
            }),
    {
        self.change_state(State::Closed);

        let mut signals = Signals::default();
        signals.reset = true;
        signals.delete = true;
        signals
    }

    /// Close due to an invalid incoming packet: unlike
    /// `remote_reset_connection` this is proactive and sends the reset.
    fn signal_reset_connection<M: PortMap>(&mut self, _segment: &Repr, entry: &EntryKey<M>) -> (r:
        Signals)
        ensures
            ({
                let (c, sig) = spec_signal_reset(*old(self), entry.tuple);
                *final(self) == c && r == sig
            }),
    {
        self.change_state(State::Closed);

        let mut signals = Signals::default();
        signals.reset = true;
        signals.delete = true;
        let ack = self.ack_all();
        signals.answer = Some(
            InnerRepr {
                flags: Flags { syn: false, fin: false, rst: true },
                seq_number: self.send.next,
                ack_number: Some(ack),
                window_len: 0,
                window_scale: None,
                max_seg_size: None,
                sack_permitted: false,
                payload_len: 0,
            }.send_to(entry.four_tuple()),
        );
        signals
    }

    /// Explicitly send an ack for all data, now.
    fn signal_ack_all(&mut self, remote: FourTuple) -> (r: Signals)
        ensures
            ({
                let (c, sig) = spec_signal_ack_all(*old(self), remote);
                *final(self) == c && r == sig
            }),
    {
        let mut signals = Signals::default();
        signals.answer = Some(self.repr_ack_all(remote));
        signals
    }

    /// Construct a segment acking all data but nothing else.
    fn segment_ack_all(&mut self, remote: FourTuple) -> (r: Segment)
        ensures
            ({
                let (c, seg) = spec_segment_ack_all(*old(self), remote);
                *final(self) == c && r == seg
            }),
    {
        Segment { repr: self.repr_ack_all(remote), begin: 0, end: 0 }
    }

    /// The representation of a bare acknowledgement of all data.
    fn repr_ack_all(&mut self, remote: FourTuple) -> (r: Repr)
        ensures
            ({
                let (c, repr) = spec_repr_ack_all(*old(self), remote);
                *final(self) == c && r == repr
            }),
    {
        let seq_number = self.send.next;
        let window_len = self.recv.window;
        let ack = self.ack_all();
        InnerRepr {
            flags: Flags::default(),
            seq_number,
            ack_number: Some(ack),
            window_len,
            window_scale: None,
            max_seg_size: None,
            sack_permitted: false,
            payload_len: 0,
        }.send_to(remote)
    }

    /// Send a SYN; when `ack` is set it also acknowledges received
    /// segments, making this a passive open.
    fn send_open(&mut self, ack: bool, to: FourTuple) -> (r: Repr)
        ensures
            ({
                let (c, repr) = spec_send_open(*old(self), ack, to);
                *final(self) == c && r == repr
            }),
    {
        let ack_number = if ack {
            Some(self.ack_all())
        } else {
            None
        };
        InnerRepr {
            flags: Flags { syn: true, fin: false, rst: false },
            seq_number: self.send.initial_seq,
            ack_number,
            window_len: 0,
            window_scale: Some(self.send.window_scale),
            max_seg_size: None,
            sack_permitted: false,
            payload_len: 0,
        }.send_to(to)
    }

    /// Grow or reset the congestion window after an acknowledgement
    /// that advanced `unacked` by `new_bytes` sequence points.
    fn window_update(&mut self, _segment: &Repr, new_bytes: u32)
        ensures
            *final(self) == (Connection {
                flow_control: Flow {
                    congestion_window: spec_window_update(*old(self), new_bytes),
                    ..old(self).flow_control
                },
                ..*old(self)
            }),
    {
        if self.duplicate_ack > 0 {
            self.flow_control.congestion_window = self.flow_control.ssthresh;
        } else if self.flow_control.congestion_window <= self.flow_control.ssthresh {
            self.flow_control.congestion_window = self.flow_control.congestion_window
                .saturating_add(self.flow_control.congestion_window);
        } else {
            // Grow by at most one segment per acknowledgement, so that
            // ack splitting cannot flood the window.
            let update = if (self.sender_maximum_segment_size as u32) <= new_bytes {
                self.sender_maximum_segment_size as u32
            } else {
                new_bytes
            };
            self.flow_control.congestion_window = self.flow_control.congestion_window
                .saturating_add(update);
        }
    }

    /// Acknowledge that a received segment has reached the reader.
    ///
    /// This method trusts the content of the `ReceivedSegment`: its
    /// flags, timestamp and length must be those of the last received
    /// packet, best taken verbatim from the signals that `arrives`
    /// returned.  Wrong information does not endanger memory, but the
    /// connection state stops tracking the remote faithfully.
    pub fn set_recv_ack(&mut self, meta: ReceivedSegment)
        requires
            meta.data_len + 2 <= u32::MAX,
        ensures
            *final(self) == spec_set_recv_ack(*old(self), meta),
    {
        let end = meta.sequence_end();
        let acked_all = self.send.next.0 == self.send.unacked.0;

        match (self.current, meta.fin, acked_all) {
            (State::Established, true, _) | (State::SynReceived, true, _) => {
                self.change_state(State::CloseWait);
            },
            (State::FinWait, true, true) | (State::Closing, _, true) => {
                self.change_state(State::TimeWait);
                // A segment lifetime estimation could stand here; the
                // retransmission timeout serves as well.
                self.retransmission_timer = meta.timestamp.plus(self.retransmission_timeout.doubled());
            },
            (State::FinWait, true, false) => {
                self.change_state(State::Closing);
            },
            _ => (),
        }

        self.recv.next = end;
        let new_timer = Expiration::When(meta.timestamp.plus(self.ack_timeout));
        self.ack_timer = self.ack_timer.earlier_of(new_timer);
    }

    /// The sequence number of the last byte acknowledged by the other
    /// side, always pointing into the byte sequence space: before our
    /// SYN is acknowledged it skips the SYN, and a fully acknowledged
    /// FIN is not included.
    pub fn get_send_ack(&self) -> (r: SeqNumber)
        ensures
            r == spec_get_send_ack(*self),
    {
        match self.current {
            State::SynSent => self.send.unacked.wrapping_add(1),
            State::FinWait | State::Closing | State::TimeWait | State::LastAck => {
                if self.send.unacked.0 == self.send.next.0 {
                    self.send.unacked.wrapping_back(1)
                } else {
                    self.send.unacked
                }
            },
            _ => self.send.unacked,
        }
    }

    /// Indicate sending an ack for all arrived packets: the public
    /// acknowledgement point catches up and the ack timer is cleared.
    fn ack_all(&mut self) -> (r: SeqNumber)
        ensures
            ({
                let (c, ack) = spec_ack_all(*old(self));
                *final(self) == c && r == ack
            }),
    {
        self.recv.acked = self.recv.next;
        self.ack_timer = Expiration::Never;
        self.recv.next
    }

    /// Whether there is any received sequence space left to acknowledge.
    fn should_ack(&self) -> (r: bool)
        ensures
            r == seq_lt(self.recv.acked.0, self.recv.next.0),
    {
        self.recv.acked.windowed_lt(self.recv.next)
    }

    /// Push a pending ack deadline out after acknowledging; a cleared
    /// timer stays cleared.
    fn rearm_ack_timer(&mut self, time: Instant)
        ensures
            *final(self) == (Connection {
                ack_timer: match old(self).ack_timer {
                    Expiration::When(_) => Expiration::When(
                        crate::time::spec_plus(time, old(self).ack_timeout),
                    ),
                    Expiration::Never => Expiration::Never,
                },
                ..*old(self)
            }),
    {
        self.ack_timer = match self.ack_timer {
            Expiration::When(_) => Expiration::When(time.plus(self.ack_timeout)),
            Expiration::Never => Expiration::Never,
        }
    }

    /// Schedule the next retransmission one timeout from `time`.
    fn rearm_retransmission_timer(&mut self, time: Instant)
        ensures
            *final(self) == (Connection {
                retransmission_timer: crate::time::spec_plus(time, old(self).retransmission_timeout),
                ..*old(self)
            }),
    {
        self.retransmission_timer = time.plus(self.retransmission_timeout);
    }

    /// Enter `new`, remembering where we came from.
    pub(crate) fn change_state(&mut self, new: State)
        ensures
            *final(self) == spec_change_state(*old(self), new),
    {
        self.previous = self.current;
        self.current = new;
    }

    /// The restart window: the congestion window capped at the send
    /// window in bytes.
    fn restart_window(&self) -> (r: u32)
        requires
            self.send.window_scale <= 14,
        ensures
            r == spec_restart_window(*self),
    {
        let window_bytes = self.send.window();
        if self.flow_control.congestion_window <= window_bytes {
            self.flow_control.congestion_window
        } else {
            window_bytes
        }
    }
}

/// A saturating increment of the duplicate-ack counter.
pub open spec fn spec_dup_ack_inc(d: u8) -> u8 {
    if d == u8::MAX { u8::MAX } else { (d + 1) as u8 }
}

/// The window scale a SYN negotiates: what the segment advertises,
/// absent counting as zero, capped at the largest legal scale of 14.
pub open spec fn spec_negotiated_scale(seg: Repr) -> u8 {
    match seg.window_scale {
        Some(ws) => if ws > 14 { 14u8 } else { ws },
        None => 0,
    }
}

/// The maximum segment size a SYN negotiates: what the segment
/// advertises, absent counting as the protocol minimum of 536, and
/// never below that minimum.
pub open spec fn spec_negotiated_mss(seg: Repr) -> u16 {
    match seg.max_seg_size {
        Some(m) => if m < 536 { 536u16 } else { m },
        None => 536,
    }
}

/// Whether a listening connection accepts a segment as an opening
/// SYN: no reset, no stray acknowledgement, and the SYN flag set.
pub open spec fn spec_listen_accepts(seg: Repr) -> bool {
    !seg.flags.rst && seg.ack_number is None && seg.flags.syn
}

/// What a listening connection does with an incoming packet: resets
/// and stray segments are dropped or answered statelessly; a SYN turns
/// the slot into a connection pending its handshake ack, remapped to
/// the sender and answered with a SYN+ACK.
pub open spec fn spec_arrives_listen(
    c: Connection,
    seg: Repr,
    from: Address,
    time: Instant,
    gen: IsnGenerator,
    tuple: FourTuple,
) -> (Connection, FourTuple, Signals) {
    if seg.flags.rst {
        (c, tuple, spec_signals_none())
    } else if seg.ack_number is Some {
        (
            c,
            tuple,
            spec_signals_answer(spec_send_impl(
                InnerRepr {
                    flags: spec_rst_flags(),
                    seq_number: seg.ack_number->0,
                    ack_number: None,
                    window_len: 0,
                    window_scale: None,
                    max_seg_size: None,
                    sack_permitted: false,
                    payload_len: 0,
                },
                seg.dst_port,
                seg.src_port,
            )),
        )
    } else if !seg.flags.syn {
        (c, tuple, spec_signals_none())
    } else {
        let new_four = FourTuple { remote: from, ..tuple };
        let isn = spec_isn(gen, new_four, time);
        let mss = spec_negotiated_mss(seg);
        let c1 = Connection {
            recv: Receive {
                next: SeqNumber(seq_add(seg.seq_number.0, 1)),
                acked: seg.seq_number,
                initial_seq: seg.seq_number,
                ..c.recv
            },
            send: Send {
                window: seg.window_len,
                window_scale: spec_negotiated_scale(seg),
                next: SeqNumber(seq_add(isn, 1)),
                unacked: SeqNumber(isn),
                initial_seq: SeqNumber(isn),
                ..c.send
            },
            sender_maximum_segment_size: mss,
            receiver_maximum_segment_size: mss,
            ..c
        };
        let c2 = spec_ack_all(c1).0;
        let answer = spec_send_impl(
            InnerRepr {
                flags: spec_syn_flags(),
                seq_number: SeqNumber(isn),
                ack_number: Some(c1.recv.next),
                window_len: c1.recv.window,
                window_scale: None,
                max_seg_size: None,
                sack_permitted: false,
                payload_len: 0,
            },
            new_four.local_port,
            new_four.remote_port,
        );
        (spec_change_state(c2, State::SynReceived), new_four, spec_signals_answer(answer))
    }
}

/// What a connection awaiting its SYN+ACK does with an incoming
/// packet: out-of-window acknowledgements are answered with a reset,
/// an acknowledged reset closes the connection, and a SYN either
/// completes the handshake into `Established` or, unacknowledged,
/// crosses into `SynReceived` with a SYN+ACK of our own.
pub open spec fn spec_arrives_syn_sent(
    c: Connection,
    seg: Repr,
    time: Instant,
    tuple: FourTuple,
) -> (Connection, Signals) {
    if seg.ack_number is Some && (seq_le((seg.ack_number->0).0, c.send.initial_seq.0) || seq_lt(
        c.send.next.0,
        (seg.ack_number->0).0,
    )) {
        if seg.flags.rst {
            (c, spec_signals_none())
        } else {
            (
                c,
                spec_signals_answer(spec_send_impl(
                    InnerRepr {
                        flags: spec_rst_flags(),
                        seq_number: seg.ack_number->0,
                        ack_number: Some(seg.seq_number),
                        window_len: 0,
                        window_scale: None,
                        max_seg_size: None,
                        sack_permitted: false,
                        payload_len: 0,
                    },
                    seg.dst_port,
                    seg.src_port,
                )),
            )
        }
    } else if seg.flags.rst {
        // Only an acknowledged reset may close the connection.
        if seg.ack_number is None {
            (c, spec_signals_none())
        } else {
            spec_remote_reset(c)
        }
    } else if !seg.flags.syn {
        (c, spec_signals_none())
    } else {
        let mss = spec_negotiated_mss(seg);
        let c1 = Connection {
            recv: Receive {
                initial_seq: seg.seq_number,
                next: SeqNumber(seq_add(seg.seq_number.0, 1)),
                acked: seg.seq_number,
                ..c.recv
            },
            send: Send {
                window: seg.window_len,
                window_scale: spec_negotiated_scale(seg),
                ..c.send
            },
            sender_maximum_segment_size: mss,
            receiver_maximum_segment_size: mss,
            ..c
        };
        let c2 = if seg.ack_number is Some {
            Connection { send: Send { unacked: seg.ack_number->0, ..c1.send }, ..c1 }
        } else {
            c1
        };
        if c2.send.unacked.0 == c2.send.initial_seq.0 {
            // The SYN did not acknowledge ours; answer and wait.
            let c3 = spec_change_state(c2, State::SynReceived);
            let (c4, repr) = spec_send_open(c3, true, tuple);
            (c4, spec_signals_answer(repr))
        } else {
            let c3 = spec_change_state(c2, State::Established);
            (Connection { ack_timer: Expiration::When(time), ..c3 }, spec_signals_none())
        }
    }
}

/// The state after a genuine acknowledgement advanced the send state:
/// a pending handshake completes, fast recovery ends, and the send
/// window and congestion window are brought up to date, in that order.
pub open spec fn spec_established_updated(
    c: Connection,
    advanced: Send,
    seg: Repr,
    new_bytes: u32,
) -> Connection {
    let ca = if c.current == State::SynReceived {
        spec_change_state(c, State::Established)
    } else {
        c
    };
    let cb = Connection { send: advanced, ..ca };
    let cc = if cb.duplicate_ack > 0 {
        Connection {
            flow_control: Flow {
                congestion_window: cb.flow_control.ssthresh,
                ..cb.flow_control
            },
            duplicate_ack: 0,
            ..cb
        }
    } else {
        cb
    };
    let cd = Connection { send: Send { window: seg.window_len, ..cc.send }, ..cc };
    Connection {
        flow_control: Flow {
            congestion_window: spec_window_update(cd, new_bytes),
            ..cd.flow_control
        },
        ..cd
    }
}

/// The descriptor under which an accepted segment is handed upward.
pub open spec fn spec_received_segment(seg: Repr, time: Instant) -> ReceivedSegment {
    ReceivedSegment {
        syn: seg.flags.syn,
        fin: seg.flags.fin,
        data_len: seg.payload_len as usize,
        begin: seg.seq_number,
        timestamp: time,
    }
}

/// What an open connection does with an incoming packet: unacceptable
/// segments are dropped or answered with a bare ack, an in-window SYN
/// resets the connection, and otherwise the acknowledgement is
/// classified and the segment handed upward for receiving.
pub open spec fn spec_arrives_established(
    c: Connection,
    seg: Repr,
    time: Instant,
    tuple: FourTuple,
) -> (Connection, Signals) {
    if !spec_ingress_acceptable(c, seg) {
        if seg.flags.rst {
            spec_remote_reset(c)
        } else {
            spec_signal_ack_all(c, tuple)
        }
    } else if seg.flags.rst && c.current != State::Established && c.current != State::FinWait {
        // In the handshake-completion and closing states an in-window
        // reset closes and deletes the connection outright.
        spec_remote_reset(c)
    } else if seg.flags.syn {
        // A SYN inside the window is not acceptable: reset proactively.
        spec_signal_reset(c, tuple)
    } else if seg.ack_number is None {
        // Not good, but not bad either.
        (c, spec_signals_none())
    } else {
        let ack = seg.ack_number->0;
        let (advanced, update) = spec_incoming_ack(c.send, ack);
        if update is Unsent {
            // Acking something we never sent; answer our actual state.
            spec_signal_ack_all(c, tuple)
        } else {
            let c1 = match update {
                AckUpdate::Duplicate => Connection {
                    duplicate_ack: spec_dup_ack_inc(c.duplicate_ack),
                    ..c
                },
                AckUpdate::TooLow => c,
                AckUpdate::Updated { new_bytes } => spec_established_updated(
                    c,
                    advanced,
                    seg,
                    new_bytes,
                ),
                AckUpdate::Unsent => c,
            };
            let meta = spec_received_segment(seg, time);
            if seg.payload_len == 0 {
                (spec_set_recv_ack(c1, meta), spec_signals_none())
            } else {
                (c1, Signals { receive: Some(meta), ..spec_signals_none() })
            }
        }
    }
}

/// What one arriving packet does to a connection, as a function of the
/// connection, the packet, and the endpoint pieces visible during the
/// call: the connection afterwards, the four-tuple afterwards, and the
/// signals raised.
pub open spec fn spec_arrives(
    c: Connection,
    seg: Repr,
    from: Address,
    time: Instant,
    gen: IsnGenerator,
    tuple: FourTuple,
) -> (Connection, FourTuple, Signals) {
    match c.current {
        State::Closed => (c, tuple, spec_arrives_closed(c, seg)),
        State::Listen => spec_arrives_listen(c, seg, from, time, gen, tuple),
        State::SynSent => {
            let (c2, sig) = spec_arrives_syn_sent(c, seg, time, tuple);
            (c2, tuple, sig)
        },
        _ => {
            let (c2, sig) = spec_arrives_established(c, seg, time, tuple);
            (c2, tuple, sig)
        },
    }
}

impl Connection {
    /// Handle an arriving packet.
    ///
    /// Every state is handled: a closed slot answers statelessly, a
    /// listener or half-open connection works its handshake, and every
    /// synchronized state runs the open-connection path, under which
    /// the close handshake advances through `set_recv_ack` and an
    /// in-window reset in the handshake-completion and closing states
    /// closes and deletes the connection.
    pub fn arrives<M: PortMap>(&mut self, incoming: &InPacket, entry: &mut EntryKey<M>) -> (r:
        Signals)
        ensures
            final(entry).isn == old(entry).isn,
            ({
                let (c, t, sig) = spec_arrives(
                    *old(self),
                    incoming.segment,
                    incoming.from,
                    incoming.time,
                    old(entry).isn,
                    old(entry).tuple,
                );
                *final(self) == c && final(entry).tuple == t && r == sig
            }),
            // Accepting a SYN on a listener moves the endpoint's index
            // entry to the new identity; no other path touches it.
            (old(self).current == State::Listen && spec_listen_accepts(incoming.segment))
                ==> final(entry).remap.index() == spec_remapped(
                old(entry).remap.index(),
                old(entry).tuple,
                FourTuple { remote: incoming.from, ..old(entry).tuple },
            ),
            !(old(self).current == State::Listen && spec_listen_accepts(incoming.segment))
                ==> final(entry).remap == old(entry).remap,
            // The duplicate-ack counter never shrinks except to zero.
            final(self).duplicate_ack >= old(self).duplicate_ack || final(self).duplicate_ack
                == 0,
            // A reset indication always asks for deletion, and past the
            // handshake an answered reset segment carries both.
            r.reset ==> r.delete,
            (spec_data_bearing(old(self).current) && r.answer is Some && (r.answer->0).flags.rst)
                ==> (r.delete && r.reset),
    {
        match self.current {
            State::Closed => self.arrives_closed(incoming),
            State::Listen => self.arrives_listen(incoming, entry),
            State::SynSent => self.arrives_syn_sent(incoming, &*entry),
            _ => self.arrives_established(incoming, &*entry),
        }
    }

    /// Handle an incoming packet in the listening state.
    fn arrives_listen<M: PortMap>(&mut self, incoming: &InPacket, entry: &mut EntryKey<M>) -> (r:
        Signals)
        requires
            old(self).current == State::Listen,
        ensures
            final(entry).isn == old(entry).isn,
            ({
                let (c, t, sig) = spec_arrives_listen(
                    *old(self),
                    incoming.segment,
                    incoming.from,
                    incoming.time,
                    old(entry).isn,
                    old(entry).tuple,
                );
                *final(self) == c && final(entry).tuple == t && r == sig
            }),
            spec_listen_accepts(incoming.segment) ==> final(entry).remap.index()
                == spec_remapped(
                old(entry).remap.index(),
                old(entry).tuple,
                FourTuple { remote: incoming.from, ..old(entry).tuple },
            ),
            !spec_listen_accepts(incoming.segment) ==> final(entry).remap == old(entry).remap,
    {
        let segment = &incoming.segment;
        let time = incoming.time;
        let mut signals = Signals::default();

        if segment.flags.rst() {
            return signals;
        }

        if let Some(ack_number) = segment.ack_number {
            // What is it acking?  A previous connection.
            signals.answer = Some(
                InnerRepr {
                    flags: Flags { syn: false, fin: false, rst: true },
                    seq_number: ack_number,
                    ack_number: None,
                    window_len: 0,
                    window_scale: None,
                    max_seg_size: None,
                    sack_permitted: false,
                    payload_len: 0,
                }.send_back(segment),
            );
            return signals;
        }

        if !segment.flags.syn() {
            // No useful flags; nothing to answer.
            return signals;
        }

        let current_four = entry.four_tuple();
        let new_four = FourTuple { remote: incoming.from, ..current_four };
        entry.set_four_tuple(new_four);
        self.recv.next = segment.seq_number.wrapping_add(1);
        self.recv.acked = segment.seq_number;
        self.recv.initial_seq = segment.seq_number;

        self.send.window = segment.window_len;
        self.send.window_scale = Self::negotiated_scale(segment);
        let mss = Self::negotiated_mss(segment);
        self.sender_maximum_segment_size = mss;
        self.receiver_maximum_segment_size = mss;

        let isn = entry.initial_seq_num(time);
        self.send.next = isn.wrapping_add(1);
        self.send.unacked = isn;
        self.send.initial_seq = isn;

        let window_len = self.recv.window;
        let ack = self.ack_all();
        signals.answer = Some(
            InnerRepr {
                flags: Flags { syn: true, fin: false, rst: false },
                seq_number: isn,
                ack_number: Some(ack),
                window_len,
                window_scale: None,
                max_seg_size: None,
                sack_permitted: false,
                payload_len: 0,
            }.send_to(new_four),
        );

        self.change_state(State::SynReceived);
        signals
    }

    /// Handle an incoming packet while our SYN is on the wire.
    fn arrives_syn_sent<M: PortMap>(&mut self, incoming: &InPacket, entry: &EntryKey<M>) -> (r:
        Signals)
        requires
            old(self).current == State::SynSent,
        ensures
            ({
                let (c, sig) = spec_arrives_syn_sent(
                    *old(self),
                    incoming.segment,
                    incoming.time,
                    entry.tuple,
                );
                *final(self) == c && r == sig
            }),
    {
        let segment = &incoming.segment;
        let time = incoming.time;

        if let Some(ack) = segment.ack_number {
            if ack.windowed_le(self.send.initial_seq) || self.send.next.windowed_lt(ack) {
                if segment.flags.rst() {
                    // Discard the segment.
                    return Signals::default();
                }

                // Packet out of window; reset with a fitting sequence number.
                let mut signals = Signals::default();
                signals.answer = Some(
                    InnerRepr {
                        flags: Flags { syn: false, fin: false, rst: true },
                        seq_number: ack,
                        ack_number: Some(segment.seq_number),
                        window_len: 0,
                        window_scale: None,
                        max_seg_size: None,
                        sack_permitted: false,
                        payload_len: 0,
                    }.send_back(segment),
                );
                return signals;
            }
        }

        if segment.flags.rst() {
            // Only a reset that acks the SYN can reset the connection.
            if segment.ack_number.is_none() {
                return Signals::default();
            }

            return self.remote_reset_connection();
        }

        if !segment.flags.syn() {
            // No control flags at all.
            return Signals::default();
        }

        self.recv.initial_seq = segment.seq_number;
        self.recv.next = segment.seq_number.wrapping_add(1);
        self.recv.acked = segment.seq_number;
        self.send.window = segment.window_len;
        self.send.window_scale = Self::negotiated_scale(segment);

        let mss = Self::negotiated_mss(segment);
        self.sender_maximum_segment_size = mss;
        self.receiver_maximum_segment_size = mss;

        if let Some(ack) = segment.ack_number {
            self.send.unacked = ack;
        }

        if self.send.unacked.0 == self.send.initial_seq.0 {
            // The SYN did not actually ack ours; change to SYN-RECEIVED.
            self.change_state(State::SynReceived);

            let mut signals = Signals::default();
            signals.answer = Some(self.send_open(true, entry.four_tuple()));
            return signals;
        }

        self.change_state(State::Established);
        // The protocol would ack immediately; we may want to piggyback
        // data, so defer, but mark the ack as due at once.
        self.ack_timer = Expiration::When(time);
        Signals::default()
    }

    /// Handle an incoming packet on a synchronized connection.
    ///
    /// An open or half-closed connection resets only on unacceptable
    /// reset segments; in every other synchronized state an in-window
    /// reset tears the connection down as well.
    fn arrives_established<M: PortMap>(&mut self, incoming: &InPacket, entry: &EntryKey<M>) -> (r:
        Signals)
        ensures
            ({
                let (c, sig) = spec_arrives_established(
                    *old(self),
                    incoming.segment,
                    incoming.time,
                    entry.tuple,
                );
                *final(self) == c && r == sig
            }),
    {
        let segment = &incoming.segment;
        let time = incoming.time;

        let acceptable = self.ingress_acceptable(segment);

        if !acceptable {
            if segment.flags.rst() {
                return self.remote_reset_connection();
            }

            // Answer with our actual state instead.
            return self.signal_ack_all(entry.four_tuple());
        }

        if segment.flags.rst() {
            match self.current {
                // An open connection resets only on unacceptable
                // segments, above; an in-window reset in any other
                // state tears the connection down.
                State::Established | State::FinWait => (),
                _ => {
                    return self.remote_reset_connection();
                },
            }
        }

        if segment.flags.syn() {
            // A SYN inside the window is not acceptable; reset.
            return self.signal_reset_connection(segment, entry);
        }

        let ack = match segment.ack_number {
            // Not good, but not bad either.
            None => {
                return Signals::default();
            },
            Some(ack) => ack,
        };

        match self.send.incoming_ack(ack) {
            AckUpdate::Unsent => {
                // That acked something we had not sent yet.  Ignore the
                // packet but ack back the previous state.
                return self.signal_ack_all(entry.four_tuple());
            },
            AckUpdate::Duplicate => {
                self.duplicate_ack = self.duplicate_ack.saturating_add(1);
            },
            // A reordered packet, potentially an attack.  Do nothing.
            AckUpdate::TooLow => (),
            AckUpdate::Updated { new_bytes } => {
                if self.current == State::SynReceived {
                    // The handshake ack: the connection is complete.
                    self.change_state(State::Established);
                }
                // No longer in fast retransmit.
                if self.duplicate_ack > 0 {
                    self.flow_control.congestion_window = self.flow_control.ssthresh;
                    self.duplicate_ack = 0;
                }
                self.send.window = segment.window_len;
                self.window_update(segment, new_bytes);
            },
        }

        // Urgent data is deliberately ignored.

        let segment_ack = ReceivedSegment {
            syn: segment.flags.syn(),
            fin: segment.flags.fin(),
            data_len: segment.payload_len as usize,
            begin: segment.seq_number,
            timestamp: time,
        };

        if segment_ack.data_len == 0 {
            self.set_recv_ack(segment_ack);
            return Signals::default();
        }

        // The receive buffer is not ours: signal the data so that the
        // layer above commits it and then calls `set_recv_ack`.
        let mut signals = Signals::default();
        signals.receive = Some(segment_ack);
        signals
    }

    /// The window scale a SYN negotiates, capped at the legal maximum.
    fn negotiated_scale(segment: &Repr) -> (r: u8)
        ensures
            r == spec_negotiated_scale(*segment),
            r <= 14,
    {
        match segment.window_scale {
            Some(ws) => if ws > 14 { 14 } else { ws },
            None => 0,
        }
    }

    /// The maximum segment size a SYN negotiates, floored at 536.
    fn negotiated_mss(segment: &Repr) -> (r: u16)
        ensures
            r == spec_negotiated_mss(*segment),
            r >= 536,
    {
        match segment.max_seg_size {
            Some(m) => if m < 536 { 536 } else { m },
            None => 536,
        }
    }
}

/// The interface for controlling the connections of an endpoint.
///
/// This decouples what a packet handler needs from the endpoint's
/// user-facing interaction points, which own the slot table, the
/// tuple index and the ephemeral port allocator.  Exhaustion of slots
/// or ports is reported as `None`.
pub trait Endpoint {
    /// The slot under a key, when the key is still live.
    fn get(&self, index: SlotKey) -> Option<&Slot>;

    /// The slot under a key, mutably, when the key is still live.
    fn get_mut(&mut self, index: SlotKey) -> Option<&mut Slot>;

    /// Reclaim a slot; its keys are invalidated.
    fn remove(&mut self, index: SlotKey);

    /// Look a connection up by exact four-tuple match.
    fn find_tuple(&mut self, tuple: FourTuple) -> Option<SlotKey>;

    /// Allocate an ephemeral port towards `addr`, if any is left.
    fn source_port(&mut self, addr: Address) -> Option<u16>;

    /// Allocate a listening slot on the given address and port.
    fn listen(&mut self, ip: Address, port: u16) -> Option<SlotKey>;

    /// Allocate an active slot under the given four-tuple.
    fn open(&mut self, tuple: FourTuple) -> Option<SlotKey>;

    /// Draw the initial sequence number for a connection identity.
    fn initial_seq_num(&mut self, id: FourTuple, time: Instant) -> SeqNumber;
}

/// The states in which the connection takes part in data transfer or
/// is completing a handshake: everything past the listening states.
pub open spec fn spec_data_bearing(s: State) -> bool {
    s == State::SynReceived || s == State::Established || s == State::FinWait
        || s == State::Closing || s == State::CloseWait || s == State::LastAck
}

impl Connection {
    /// The well-formedness of a control block, holding between handler
    /// calls: the unacknowledged point never passes the send point, the
    /// public acknowledgement never passes the receive point, window
    /// scales are legal, and a connection past its handshake has a
    /// negotiated maximum segment size.
    pub open spec fn wf(self) -> bool {
        &&& seq_le(self.send.unacked.0, self.send.next.0)
        &&& seq_le(self.recv.acked.0, self.recv.next.0)
        &&& self.send.window_scale <= 14
        &&& self.recv.window_scale <= 14
        &&& spec_data_bearing(self.current) ==> self.sender_maximum_segment_size >= 536
    }
}

/// The caller's byte count clamped into the 32-bit window arithmetic.
pub open spec fn spec_byte_window(total: usize) -> u32 {
    if total > u32::MAX { u32::MAX } else { total as u32 }
}

/// A retransmission from the oldest unacknowledged point: up to one
/// segment of the bytes in flight, as far as the windows allow.  The
/// connection changes only if a segment is produced, which then also
/// acknowledges everything received.
pub open spec fn spec_segment_retransmit(c: Connection, available: AvailableBytes, tuple: FourTuple) -> (
    Connection,
    Option<Segment>,
) {
    let in_flight = seq_delta(c.send.unacked.0, c.send.next.0);
    let byte_window = spec_byte_window(available.total);
    if in_flight == 0 {
        // A duplicate ack, but nothing is actually missing.
        (c, None)
    } else {
        let to_send = spec_min3(
            spec_window_bytes(c.send),
            c.sender_maximum_segment_size as int,
            byte_window as int,
        );
        if to_send == 0 {
            (c, None)
        } else {
            let (c1, repr0) = spec_repr_ack_all(c, tuple);
            let is_fin = available.fin && to_send == available.total;
            let repr = Repr {
                flags: Flags { fin: is_fin, ..repr0.flags },
                seq_number: c.send.unacked,
                payload_len: to_send as u16,
                ..repr0
            };
            (c1, Some(Segment { repr, begin: 0, end: to_send as int as usize }))
        }
    }
}

/// The least of three window bounds.
pub open spec fn spec_min3(a: int, b: int, cc: int) -> int {
    let ab = if a <= b { a } else { b };
    if ab <= cc { ab } else { cc }
}

/// A timeout retransmission: the timer is rearmed, then the oldest
/// unacknowledged segment is retransmitted.
pub open spec fn spec_timeout_retransmit(
    c: Connection,
    available: AvailableBytes,
    time: Instant,
    tuple: FourTuple,
) -> (Connection, Option<Segment>) {
    let c1 = Connection {
        retransmission_timer: crate::time::spec_plus(time, c.retransmission_timeout),
        ..c
    };
    spec_segment_retransmit(c1, available, tuple)
}

/// A synchronize retransmission while the handshake is unfinished:
/// nothing before the timer is due, else the SYN goes out again (with
/// an ack when we are answering a remote open) and the timer rearms.
pub open spec fn spec_select_syn_retransmit(c: Connection, time: Instant, tuple: FourTuple) -> (
    Connection,
    Option<Segment>,
) {
    if c.retransmission_timer.millis > time.millis {
        (c, None)
    } else {
        let ack = c.current == State::SynReceived;
        let c1 = Connection {
            retransmission_timer: crate::time::spec_plus(time, c.retransmission_timeout),
            ..c
        };
        let (c2, repr) = spec_send_open(c1, ack, tuple);
        (c2, Some(Segment { repr, begin: 0, end: 0 }))
    }
}

/// A final acknowledgement on a closed or lingering slot: nothing when
/// everything received is acknowledged, else a bare ack.
pub open spec fn spec_ensure_closed_ack(c: Connection, tuple: FourTuple) -> (
    Connection,
    Option<Segment>,
) {
    if c.recv.acked.0 == c.recv.next.0 {
        (c, None)
    } else {
        let (c1, seg) = spec_segment_ack_all(c, tuple);
        (c1, Some(seg))
    }
}

/// The lingering close state: pending acknowledgements are flushed,
/// and once the linger timer is due the slot asks for deletion.
pub open spec fn spec_ensure_time_wait(c: Connection, time: Instant, tuple: FourTuple) -> (
    Connection,
    OutSignals,
) {
    let (c1, seg) = spec_ensure_closed_ack(c, tuple);
    match seg {
        Some(seg) => (c1, OutSignals { segment: Some(seg), delete: false }),
        None => (
            c1,
            OutSignals { delete: time.millis >= c.retransmission_timer.millis, segment: None },
        ),
    }
}

/// The main send selector on an open connection: restart the window
/// after an idle period, retransmit on duplicate acks or a timeout,
/// else send one new segment inside the windows, closing with it when
/// the user's buffer ends in a FIN, else a bare acknowledgement when
/// one is owed.
pub open spec fn spec_select_send_segment(
    c: Connection,
    available: AvailableBytes,
    time: Instant,
    tuple: FourTuple,
) -> (Connection, Option<Segment>) {
    let byte_window = spec_byte_window(available.total);
    let last_time = crate::time::spec_later_of(c.recv.last_time, c.send.last_time);
    let c0 = if time.millis > crate::time::spec_plus(last_time, c.restart_timeout).millis {
        Connection {
            flow_control: Flow {
                congestion_window: spec_restart_window(c),
                ..c.flow_control
            },
            ..c
        }
    } else {
        c
    };
    if c0.duplicate_ack >= 2 {
        // Fast retransmit.
        spec_segment_retransmit(c0, available, tuple)
    } else if c0.retransmission_timer.millis < time.millis {
        spec_timeout_retransmit(c0, available, time, tuple)
    } else {
        let window = spec_window_bytes(c0.send);
        let sent = seq_delta(c0.send.unacked.0, c0.send.next.0);
        let max_sent = if window <= byte_window { window } else { byte_window as int };
        if sent < max_sent {
            let end = if sent + c0.sender_maximum_segment_size <= max_sent {
                sent + c0.sender_maximum_segment_size
            } else {
                max_sent
            };
            let is_fin = available.fin && end == available.total;
            let c1 = if is_fin && c0.current == State::Established {
                spec_change_state(c0, State::FinWait)
            } else if is_fin && c0.current == State::CloseWait {
                spec_change_state(c0, State::LastAck)
            } else {
                c0
            };
            let (c2, repr0) = spec_repr_ack_all(c1, tuple);
            let repr = Repr {
                flags: if is_fin { Flags { fin: true, ..repr0.flags } } else { repr0.flags },
                payload_len: (end - sent) as u16,
                ..repr0
            };
            let advance = (end - sent) + (if is_fin { 1int } else { 0 });
            let c3 = Connection {
                send: Send { next: SeqNumber(seq_add(c2.send.next.0, advance)), ..c2.send },
                ..c2
            };
            (c3, Some(Segment { repr, begin: sent as usize, end: end as usize }))
        } else if seq_lt(c0.recv.acked.0, c0.recv.next.0) || (c0.ack_timer matches Expiration::When(
            at,
        ) && at.millis <= time.millis) {
            let c1 = Connection {
                ack_timer: match c0.ack_timer {
                    Expiration::When(_) => Expiration::When(
                        crate::time::spec_plus(time, c0.ack_timeout),
                    ),
                    Expiration::Never => Expiration::Never,
                },
                ..c0
            };
            let (c2, seg) = spec_segment_ack_all(c1, tuple);
            (c2, Some(seg))
        } else {
            (c0, None)
        }
    }
}

/// What one egress poll does to a connection: per state, either the
/// main selector (with new data capped off once our FIN is out), a
/// handshake retransmission, a final acknowledgement, or the lingering
/// close; a listener sends nothing.
pub open spec fn spec_next_send_segment(
    c: Connection,
    available: AvailableBytes,
    time: Instant,
    tuple: FourTuple,
) -> (Connection, OutSignals) {
    match c.current {
        State::Established | State::CloseWait => {
            let (c1, seg) = spec_select_send_segment(c, available, time, tuple);
            (c1, spec_out_opt(seg))
        },
        State::FinWait | State::Closing | State::LastAck => {
            // Never transmit new data past our own FIN.
            let in_flight = seq_delta(c.send.unacked.0, c.send.next.0);
            let capped = AvailableBytes {
                total: if available.total <= in_flight { available.total } else {
                    in_flight as usize
                },
                ..available
            };
            let (c1, seg) = spec_select_send_segment(c, capped, time, tuple);
            (c1, spec_out_opt(seg))
        },
        State::Closed => {
            let (c1, seg) = spec_ensure_closed_ack(c, tuple);
            (c1, spec_out_opt(seg))
        },
        State::TimeWait => spec_ensure_time_wait(c, time, tuple),
        State::SynSent | State::SynReceived => {
            let (c1, seg) = spec_select_syn_retransmit(c, time, tuple);
            (c1, spec_out_opt(seg))
        },
        State::Listen => (c, spec_out_none()),
    }
}

/// An optional segment lifted into egress signals.
pub open spec fn spec_out_opt(seg: Option<Segment>) -> OutSignals {
    match seg {
        Some(seg) => spec_out_segment(seg),
        None => spec_out_none(),
    }
}

impl Connection {
    /// Choose the next segment to send.
    ///
    /// May choose an empty range where there is no data to send but a
    /// delayed acknowledgement is expected.
    pub fn next_send_segment<M: PortMap>(
        &mut self,
        available: AvailableBytes,
        time: Instant,
        entry: &EntryKey<M>,
    ) -> (r: OutSignals)
        requires
            old(self).wf(),
        ensures
            ({
                let (c, out) = spec_next_send_segment(*old(self), available, time, entry.tuple);
                *final(self) == c && r == out
            }),
    {
        match self.current {
            State::Established | State::CloseWait => {
                match self.select_send_segment(available, time, entry) {
                    Some(segment) => OutSignals::segment(segment),
                    None => OutSignals::none(),
                }
            },
            // Once we have sent our FIN, never send new data.
            State::FinWait | State::Closing | State::LastAck => {
                let in_flight = self.send.in_flight();
                let capped = AvailableBytes {
                    fin: available.fin,
                    total: if available.total <= in_flight as usize {
                        available.total
                    } else {
                        in_flight as usize
                    },
                };
                match self.select_send_segment(capped, time, entry) {
                    Some(segment) => OutSignals::segment(segment),
                    None => OutSignals::none(),
                }
            },
            State::Closed => {
                match self.ensure_closed_ack(entry.four_tuple()) {
                    Some(segment) => OutSignals::segment(segment),
                    None => OutSignals::none(),
                }
            },
            State::TimeWait => self.ensure_time_wait(time, entry),
            State::SynSent | State::SynReceived => {
                match self.select_syn_retransmit(time, entry) {
                    Some(segment) => OutSignals::segment(segment),
                    None => OutSignals::none(),
                }
            },
            State::Listen => OutSignals::none(),
        }
    }

    /// The main selector: one segment of new data, a retransmission,
    /// or a bare acknowledgement, as the state of the windows demands.
    fn select_send_segment<M: PortMap>(
        &mut self,
        available: AvailableBytes,
        time: Instant,
        entry: &EntryKey<M>,
    ) -> (r: Option<Segment>)
        requires
            old(self).wf(),
            spec_data_bearing(old(self).current),
        ensures
            ({
                let (c, seg) = spec_select_send_segment(*old(self), available, time, entry.tuple);
                *final(self) == c && r == seg
            }),
    {
        // Clamp the byte count into the window arithmetic; the windows
        // can never be that large anyway.
        let byte_window: u32 = if available.total > u32::MAX as usize {
            u32::MAX
        } else {
            available.total as u32
        };
        // Restart the connection after an idle time.
        let last_time = self.recv.last_time.later_of(self.send.last_time);
        if last_time.plus(self.restart_timeout).before(time) {
            self.flow_control.congestion_window = self.restart_window();
        }

        if self.duplicate_ack >= 2 {
            // Fast retransmit.
            return self.fast_retransmit(available, time, entry);
        }

        if self.retransmission_timer.before(time) {
            // Choose segments to retransmit; in contrast to the fast
            // retransmit this may influence multiple next packets.
            return self.timeout_retransmit(available, time, entry);
        }

        // Even after a FIN the other side could shrink their window to
        // the point where the FIN's sequence number no longer fits.
        let window = self.send.window();
        let sent = self.send.in_flight();
        let max_sent = if window <= byte_window { window } else { byte_window };

        if sent < max_sent {
            // Send one new segment of new data.
            let end_u32 = {
                let target = sent.saturating_add(self.sender_maximum_segment_size as u32);
                if target <= max_sent { target } else { max_sent }
            };
            // With a negotiated segment size the range is never empty.
            assert(sent < end_u32);
            let sent_usize = sent as usize;
            let end = end_u32 as usize;

            let is_fin = available.fin && end == available.total;

            if is_fin {
                match self.current {
                    State::Established => self.change_state(State::FinWait),
                    State::CloseWait => self.change_state(State::LastAck),
                    _ => (),
                }
            }

            let mut repr = self.repr_ack_all(entry.four_tuple());

            repr.payload_len = (end_u32 - sent) as u16;
            if is_fin {
                repr.flags = Flags { syn: false, fin: true, rst: false };
            }

            let advance = (end - sent_usize) + (if is_fin { 1usize } else { 0 });
            self.send.next = self.send.next.wrapping_add_usize(advance);

            return Some(Segment { repr, begin: sent_usize, end });
        }

        // Nothing to send, but an acknowledgement may be owed anyway.
        if self.should_ack() || self.ack_timer.due_by(time) {
            self.rearm_ack_timer(time);
            return Some(self.segment_ack_all(entry.four_tuple()));
        }

        None
    }

    /// Retransmit the SYN of an unfinished handshake once due.
    fn select_syn_retransmit<M: PortMap>(&mut self, time: Instant, entry: &EntryKey<M>) -> (r:
        Option<Segment>)
        requires
            old(self).current == State::SynSent || old(self).current == State::SynReceived,
        ensures
            ({
                let (c, seg) = spec_select_syn_retransmit(*old(self), time, entry.tuple);
                *final(self) == c && r == seg
            }),
    {
        if time.before(self.retransmission_timer) {
            return None;
        }

        let ack = match self.current {
            State::SynReceived => true,
            _ => false,
        };

        self.rearm_retransmission_timer(time);
        Some(Segment { repr: self.send_open(ack, entry.four_tuple()), begin: 0, end: 0 })
    }

    /// A fast retransmission after duplicate acknowledgements.
    fn fast_retransmit<M: PortMap>(
        &mut self,
        available: AvailableBytes,
        _time: Instant,
        entry: &EntryKey<M>,
    ) -> (r: Option<Segment>)
        requires
            old(self).wf(),
        ensures
            ({
                let (c, seg) = spec_segment_retransmit(*old(self), available, entry.tuple);
                *final(self) == c && r == seg
            }),
    {
        self.segment_retransmit(available, entry.four_tuple())
    }

    /// A retransmission after the retransmission timer ran out.
    fn timeout_retransmit<M: PortMap>(
        &mut self,
        available: AvailableBytes,
        time: Instant,
        entry: &EntryKey<M>,
    ) -> (r: Option<Segment>)
        requires
            old(self).wf(),
        ensures
            ({
                let (c, seg) = spec_timeout_retransmit(*old(self), available, time, entry.tuple);
                *final(self) == c && r == seg
            }),
    {
        self.rearm_retransmission_timer(time);
        self.segment_retransmit(available, entry.four_tuple())
    }

    /// Retransmit from the first unacknowledged point: as many bytes
    /// as one segment and the windows allow, with the FIN set again
    /// when the retransmission reaches the end of a closing buffer.
    fn segment_retransmit(&mut self, available: AvailableBytes, tuple: FourTuple) -> (r: Option<
        Segment,
    >)
        requires
            seq_le(old(self).send.unacked.0, old(self).send.next.0),
            old(self).send.window_scale <= 14,
        ensures
            ({
                let (c, seg) = spec_segment_retransmit(*old(self), available, tuple);
                *final(self) == c && r == seg
            }),
    {
        let in_flight = self.send.in_flight();

        let byte_window: u32 = if available.total > u32::MAX as usize {
            u32::MAX
        } else {
            available.total as u32
        };

        // A duplicate ack, but no data is actually missing.
        if in_flight == 0 {
            return None;
        }

        let to_send = {
            let window = self.send.window();
            let a = if window <= self.sender_maximum_segment_size as u32 {
                window
            } else {
                self.sender_maximum_segment_size as u32
            };
            if a <= byte_window { a } else { byte_window }
        };

        if to_send == 0 {
            return None;
        }

        let end = to_send as usize;
        let is_fin = available.fin && end == available.total;

        let mut repr = self.repr_ack_all(tuple);
        repr.flags.set_fin(is_fin);
        repr.seq_number = self.send.unacked;
        repr.payload_len = to_send as u16;

        Some(Segment { repr, begin: 0, end })
    }

    /// A final acknowledgement of data received before the close.
    fn ensure_closed_ack(&mut self, tuple: FourTuple) -> (r: Option<Segment>)
        ensures
            ({
                let (c, seg) = spec_ensure_closed_ack(*old(self), tuple);
                *final(self) == c && r == seg
            }),
    {
        if self.recv.acked.0 == self.recv.next.0 {
            return None;
        }

        Some(self.segment_ack_all(tuple))
    }

    /// Linger after the close: flush pending acknowledgements, then
    /// ask for deletion once the linger timer is due.
    fn ensure_time_wait<M: PortMap>(&mut self, time: Instant, entry: &EntryKey<M>) -> (r: OutSignals)
        ensures
            ({
                let (c, out) = spec_ensure_time_wait(*old(self), time, entry.tuple);
                *final(self) == c && r == out
            }),
    {
        match self.ensure_closed_ack(entry.four_tuple()) {
            Some(segment) => OutSignals { segment: Some(segment), delete: false },
            None => OutSignals {
                delete: self.retransmission_timer.at_or_before(time),
                segment: None,
            },
        }
    }
}

} // verus!
