//! The laws of the connection state machine: properties that hold of
//! every transition, stated over the transition functions and proved
//! once and for all.

use vstd::prelude::*;

use crate::connection::AvailableBytes;
use crate::connection::Connection;
use crate::connection::ReceivedSegment;
use crate::connection::State;
use crate::connection::spec_arrives;
use crate::connection::spec_arrives_established;
use crate::connection::spec_arrives_syn_sent;
use crate::connection::spec_negotiated_mss;
use crate::connection::spec_signals_none;
use crate::connection::spec_data_bearing;
use crate::connection::spec_incoming_ack;
use crate::connection::spec_ingress_acceptable;
use crate::connection::spec_next_send_segment;
use crate::connection::spec_open;
use crate::connection::spec_received_segment;
use crate::connection::spec_seg_end;
use crate::connection::spec_seg_len;
use crate::connection::spec_set_recv_ack;
use crate::connection::spec_window_bytes;
use crate::endpoint::FourTuple;
use crate::endpoint::IsnGenerator;
use crate::endpoint::spec_isn;
use crate::seqnum::SeqNumber;
use crate::seqnum::lemma_delta_antisym;
use crate::seqnum::lemma_delta_chain;
use crate::seqnum::lemma_delta_of_add;
use crate::seqnum::lemma_delta_self;
use crate::seqnum::lemma_small_delta;
use crate::seqnum::seq_add;
use crate::seqnum::seq_delta;
use crate::seqnum::seq_in_window;
use crate::seqnum::seq_le;
use crate::seqnum::seq_lt;
use crate::time::Expiration;
use crate::time::Instant;
use crate::wire::Address;
use crate::wire::Repr;

verus! {

/// The duplicate-ack counter never decreases, except that an
/// acknowledgement which genuinely advances the send state resets it
/// to zero.
pub proof fn lemma_duplicate_ack_monotone(
    c: Connection,
    seg: Repr,
    from: Address,
    time: Instant,
    gen: IsnGenerator,
    tuple: FourTuple,
)
    ensures
        ({
            let (c2, _, _) = spec_arrives(c, seg, from, time, gen, tuple);
            c2.duplicate_ack >= c.duplicate_ack || (c2.duplicate_ack == 0 && seg.ack_number is Some
                && spec_incoming_ack(c.send, seg.ack_number->0).1 is Updated)
        }),
{
}

/// A handler that signals a reset also asks for deletion, and on a
/// connection past its handshake an answered reset segment always
/// comes with both: no reset-triggering path leaves the slot behind.
/// The closed-state responder, which answers for no live slot, and the
/// stateless reset answers of the listening and opening states are the
/// exceptions.  In the handshake-completion and closing states any
/// reset, in or out of the window, closes and deletes the connection.
pub proof fn lemma_reset_implies_delete(
    c: Connection,
    seg: Repr,
    from: Address,
    time: Instant,
    gen: IsnGenerator,
    tuple: FourTuple,
)
    ensures
        ({
            let (c2, _, sig) = spec_arrives(c, seg, from, time, gen, tuple);
            &&& sig.reset ==> sig.delete
            &&& (spec_data_bearing(c.current) && sig.answer is Some && (sig.answer->0).flags.rst)
                ==> (sig.delete && sig.reset)
            &&& ((c.current == State::SynReceived || c.current == State::Closing || c.current
                == State::CloseWait || c.current == State::LastAck || c.current
                == State::TimeWait) && seg.flags.rst) ==> (sig.delete && sig.reset
                && sig.answer is None && c2.current == State::Closed)
        }),
{
}

/// Acknowledging the same accepted segment twice in a row is a no-op:
/// the second application changes nothing at all, in particular not
/// the receive pointer.
pub proof fn lemma_set_recv_ack_idempotent(c: Connection, meta: ReceivedSegment)
    ensures
        spec_set_recv_ack(spec_set_recv_ack(c, meta), meta) == spec_set_recv_ack(c, meta),
{
}

/// With a nonzero receive window, a segment is acceptable exactly when
/// its first sequence number lies in the window, or, when it carries
/// data, its last byte does.  (With a zero window only the empty
/// segment sitting exactly at the receive pointer is acceptable.)
pub proof fn lemma_acceptable_means_in_window(c: Connection, seg: Repr)
    requires
        c.recv.window > 0,
    ensures
        spec_ingress_acceptable(c, seg) <==> (seq_in_window(
            c.recv.next.0,
            seg.seq_number.0,
            c.recv.window as int,
        ) || (seg.payload_len > 0 && seq_in_window(
            c.recv.next.0,
            crate::seqnum::seq_add(seg.seq_number.0, seg.payload_len - 1),
            c.recv.window as int,
        ))),
{
}

/// A listening endpoint handed the three-way handshake ends up
/// established: the SYN turns the slot towards the sender and is
/// answered with a SYN+ACK; the handshake acknowledgement completes
/// the connection, with our initial sequence number acknowledged and
/// the receive pointer one past the peer's initial sequence number.
pub proof fn lemma_passive_open_handshake(
    c: Connection,
    syn_seg: Repr,
    ack_seg: Repr,
    from: Address,
    t1: Instant,
    t2: Instant,
    gen: IsnGenerator,
    tuple: FourTuple,
)
    requires
        c.current == State::Listen,
        syn_seg.flags.syn,
        !syn_seg.flags.rst,
        syn_seg.ack_number is None,
        ({
            let four = FourTuple { remote: from, ..tuple };
            let isn = spec_isn(gen, four, t1);
            &&& ack_seg.ack_number == Some(SeqNumber(seq_add(isn, 1)))
            &&& ack_seg.seq_number == SeqNumber(seq_add(syn_seg.seq_number.0, 1))
            &&& !ack_seg.flags.syn
            &&& !ack_seg.flags.rst
            &&& !ack_seg.flags.fin
            &&& ack_seg.payload_len == 0
        }),
    ensures
        ({
            let four = FourTuple { remote: from, ..tuple };
            let isn = spec_isn(gen, four, t1);
            let (c1, four1, sig1) = spec_arrives(c, syn_seg, from, t1, gen, tuple);
            let (c2, four2, sig2) = spec_arrives(c1, ack_seg, from, t2, gen, four1);
            &&& four1 == four
            &&& c1.current == State::SynReceived
            &&& sig1.answer is Some
            &&& (sig1.answer->0).flags.syn
            &&& (sig1.answer->0).seq_number == SeqNumber(isn)
            &&& (sig1.answer->0).ack_number == Some(
                SeqNumber(seq_add(syn_seg.seq_number.0, 1)),
            )
            &&& c2.current == State::Established
            &&& c2.send.unacked == SeqNumber(seq_add(isn, 1))
            &&& c2.recv.next == SeqNumber(seq_add(syn_seg.seq_number.0, 1))
            &&& four2 == four
        }),
{
    let four = FourTuple { remote: from, ..tuple };
    let isn = spec_isn(gen, four, t1);
    let (c1, four1, sig1) = spec_arrives(c, syn_seg, from, t1, gen, tuple);
    let isn1 = SeqNumber(seq_add(isn, 1));
    // The handshake ack sits exactly at the receive pointer.
    crate::seqnum::lemma_delta_self(c1.recv.next.0);
    // It acknowledges exactly one sequence point: the SYN.
    crate::seqnum::lemma_delta_of_add(isn, 1);
    crate::seqnum::lemma_small_delta(1);
    assert(seq_delta(isn, isn1.0) == 1);
    // So it is neither too low nor a duplicate nor beyond the send
    // pointer.
    assert(seq_delta(isn1.0, isn) == 0x1_0000_0000 - 1) by {
        crate::seqnum::lemma_delta_chain(isn1.0, isn, isn1.0);
        crate::seqnum::lemma_delta_self(isn1.0);
        crate::seqnum::lemma_small_delta(seq_delta(isn1.0, isn));
    }
    crate::seqnum::lemma_delta_self(isn1.0);
    let end = crate::connection::spec_seg_end(
        crate::connection::spec_received_segment(ack_seg, t2),
    );
    crate::seqnum::lemma_small_delta(0);
    assert(end.0 == seq_add(ack_seg.seq_number.0, 0));
    crate::seqnum::lemma_delta_of_add(ack_seg.seq_number.0, 0);
    assert(seq_delta(ack_seg.seq_number.0, end.0) == 0);
    assert(end == ack_seg.seq_number) by {
        crate::seqnum::lemma_small_delta(ack_seg.seq_number.0 as int);
    }
}

/// An active open reaches `Established` within two polls: the first
/// poll with the retransmission timer due emits the SYN, the peer's
/// SYN+ACK completes the handshake, and the following poll
/// acknowledges it.
#[verifier::rlimit(80)]
pub proof fn lemma_active_open_handshake(
    c: Connection,
    synack: Repr,
    t0: Instant,
    t1: Instant,
    t2: Instant,
    t3: Instant,
    gen: IsnGenerator,
    tuple: FourTuple,
)
    requires
        c.current == State::Closed || c.current == State::Listen,
        c.duplicate_ack < 2,
        t0.millis <= t1.millis,
        ({
            let isn = spec_isn(gen, tuple, t0);
            &&& synack.flags.syn
            &&& !synack.flags.rst
            &&& !synack.flags.fin
            &&& synack.ack_number == Some(SeqNumber(seq_add(isn, 1)))
            &&& synack.payload_len == 0
        }),
        ({
            let after_poll = crate::time::spec_plus(t1, c.retransmission_timeout);
            t3.millis <= after_poll.millis
        }),
    ensures
        ({
            let isn = spec_isn(gen, tuple, t0);
            let c0 = spec_open(c, isn as u32, t0);
            let none_available = AvailableBytes { fin: false, total: 0 };
            let (c1, out1) = spec_next_send_segment(c0, none_available, t1, tuple);
            let (c2, _, _) = spec_arrives(c1, synack, tuple.remote, t2, gen, tuple);
            let (c3, out3) = spec_next_send_segment(c2, none_available, t3, tuple);
            &&& c0.current == State::SynSent
            &&& out1.segment is Some
            &&& (out1.segment->0).repr.flags.syn
            &&& (out1.segment->0).repr.seq_number == SeqNumber(isn)
            &&& (out1.segment->0).repr.ack_number is None
            &&& c2.current == State::Established
            &&& c2.send.unacked == SeqNumber(seq_add(isn, 1))
            &&& c2.recv.next == SeqNumber(seq_add(synack.seq_number.0, 1))
            &&& out3.segment is Some
            &&& (out3.segment->0).repr.ack_number == Some(
                SeqNumber(seq_add(synack.seq_number.0, 1)),
            )
            &&& c3.recv.acked == SeqNumber(seq_add(synack.seq_number.0, 1))
        }),
{
    let isn = spec_isn(gen, tuple, t0);
    let c0 = spec_open(c, isn as u32, t0);
    let none_available = AvailableBytes { fin: false, total: 0 };
    let (c1, out1) = spec_next_send_segment(c0, none_available, t1, tuple);
    let isn1 = SeqNumber(seq_add(isn, 1));
    // The SYN+ACK acknowledges exactly the one point of our SYN.
    crate::seqnum::lemma_delta_of_add(isn, 1);
    crate::seqnum::lemma_small_delta(1);
    assert(seq_delta(isn, isn1.0) == 1);
    assert(seq_delta(isn1.0, isn) == 0x1_0000_0000 - 1) by {
        crate::seqnum::lemma_delta_chain(isn1.0, isn, isn1.0);
        crate::seqnum::lemma_delta_self(isn1.0);
        crate::seqnum::lemma_small_delta(seq_delta(isn1.0, isn));
    }
    crate::seqnum::lemma_delta_self(isn1.0);
    assert(c1.current == State::SynSent && c1.send.initial_seq == SeqNumber(isn)
        && c1.send.unacked == SeqNumber(isn) && c1.send.next == isn1
        && c1.duplicate_ack == c.duplicate_ack
        && c1.retransmission_timer == crate::time::spec_plus(t1, c.retransmission_timeout));
    let (c2, _, _) = spec_arrives(c1, synack, tuple.remote, t2, gen, tuple);
    assert(c2.current == State::Established && c2.send.unacked == isn1 && c2.send.next == isn1
        && c2.recv.next == SeqNumber(seq_add(synack.seq_number.0, 1))
        && c2.recv.acked == synack.seq_number
        && c2.duplicate_ack == c.duplicate_ack
        && c2.retransmission_timer == c1.retransmission_timer);
    // After the handshake nothing is in flight, so the second poll
    // finds no data to send and owes the peer an acknowledgement.
    crate::seqnum::lemma_delta_self(c2.send.unacked.0);
    crate::seqnum::lemma_delta_of_add(synack.seq_number.0, 1);
    assert(seq_delta(c2.recv.acked.0, c2.recv.next.0) == 1);
}

/// Acknowledging a segment that lies ahead of the receive pointer, as
/// long as the whole advance fits the forward half of the sequence
/// circle, keeps the control block well-formed.
pub proof fn lemma_set_recv_ack_keeps_wf(c: Connection, m: ReceivedSegment)
    requires
        c.wf(),
        seq_delta(c.recv.acked.0, c.recv.next.0) + seq_delta(c.recv.next.0, m.begin.0)
            + spec_seg_len(m) < 0x8000_0000,
    ensures
        spec_set_recv_ack(c, m).wf(),
{
    let end = spec_seg_end(m);
    let len = spec_seg_len(m);
    lemma_delta_of_add(m.begin.0, len);
    lemma_small_delta(len);
    assert(seq_delta(m.begin.0, end.0) == len);
    lemma_delta_chain(c.recv.next.0, m.begin.0, end.0);
    lemma_small_delta(seq_delta(c.recv.next.0, m.begin.0) + len);
    lemma_delta_chain(c.recv.acked.0, c.recv.next.0, end.0);
    lemma_small_delta(seq_delta(c.recv.acked.0, c.recv.next.0) + seq_delta(c.recv.next.0, end.0));
}

/// Every ingress transition keeps the control block well-formed,
/// provided the acknowledgement lag leaves room for one more window of
/// data, and, while our SYN is in flight, the peer's acknowledgement
/// number is not exactly opposite our send pointer on the sequence
/// circle.
pub proof fn lemma_arrives_keeps_wf(
    c: Connection,
    seg: Repr,
    from: Address,
    time: Instant,
    gen: IsnGenerator,
    tuple: FourTuple,
)
    requires
        c.wf(),
        seq_delta(c.recv.acked.0, c.recv.next.0) + c.recv.window + 2 < 0x8000_0000,
        match seg.ack_number {
            Some(a) => seq_delta(c.send.next.0, a.0) != 0x8000_0000,
            None => true,
        },
    ensures
        spec_arrives(c, seg, from, time, gen, tuple).0.wf(),
{
    let (c2, _, _) = spec_arrives(c, seg, from, time, gen, tuple);
    match c.current {
        State::Closed => {
        },
        State::Listen => {
            if !seg.flags.rst && seg.ack_number is None && seg.flags.syn {
                let four = FourTuple { remote: from, ..tuple };
                let isn = spec_isn(gen, four, time);
                lemma_delta_of_add(isn, 1);
                lemma_small_delta(1);
                lemma_delta_self(seq_add(seg.seq_number.0, 1) as u32);
            }
        },
        State::SynSent => {
            lemma_syn_sent_keeps_wf(c, seg, time, tuple);
        },
        _ => {
            lemma_established_keeps_wf(c, seg, time, tuple);
        },
    }
}

/// The ingress transition of a connection awaiting its SYN+ACK keeps
/// the control block well-formed, the peer's acknowledgement number
/// not being exactly opposite our send pointer.
proof fn lemma_syn_sent_keeps_wf(c: Connection, seg: Repr, time: Instant, tuple: FourTuple)
    requires
        c.wf(),
        c.current == State::SynSent,
        match seg.ack_number {
            Some(a) => seq_delta(c.send.next.0, a.0) != 0x8000_0000,
            None => true,
        },
    ensures
        crate::connection::spec_arrives_syn_sent(c, seg, time, tuple).0.wf(),
{
    let (c2, _) = crate::connection::spec_arrives_syn_sent(c, seg, time, tuple);
    if seg.ack_number is Some {
        let a = seg.ack_number->0;
        if !(seq_le(a.0, c.send.initial_seq.0) || seq_lt(c.send.next.0, a.0)) {
            // The acknowledgement is not beyond the send pointer, so it
            // is at or before it on the forward half of the circle.
            if a.0 != c.send.next.0 {
                lemma_delta_antisym(c.send.next.0, a.0);
            } else {
                lemma_delta_self(a.0);
            }
            assert(seq_le(a.0, c.send.next.0));
        }
    }
    if !(seg.ack_number is Some && (seq_le((seg.ack_number->0).0, c.send.initial_seq.0) || seq_lt(
        c.send.next.0,
        (seg.ack_number->0).0,
    ))) && !seg.flags.rst && seg.flags.syn {
        lemma_delta_of_add(seg.seq_number.0, 1);
        lemma_small_delta(1);
    }
}

/// The ingress transition of a synchronized connection keeps the
/// control block well-formed, given room for one more window of data
/// past the acknowledgement lag.
proof fn lemma_established_keeps_wf(c: Connection, seg: Repr, time: Instant, tuple: FourTuple)
    requires
        c.wf(),
        !(c.current == State::Closed || c.current == State::Listen || c.current
            == State::SynSent),
        seq_delta(c.recv.acked.0, c.recv.next.0) + c.recv.window + 2 < 0x8000_0000,
    ensures
        crate::connection::spec_arrives_established(c, seg, time, tuple).0.wf(),
{
    let (c2, _) = crate::connection::spec_arrives_established(c, seg, time, tuple);
    lemma_delta_self(c.recv.next.0);
    if spec_ingress_acceptable(c, seg) && !seg.flags.syn && seg.ack_number is Some {
        let a = seg.ack_number->0;
        let (advanced, update) = spec_incoming_ack(c.send, a);
        let c1 = if update is Duplicate {
            Connection { duplicate_ack: crate::connection::spec_dup_ack_inc(c.duplicate_ack), ..c }
        } else if update is TooLow {
            c
        } else if update is Updated {
            crate::connection::spec_established_updated(c, advanced, seg, update->new_bytes)
        } else {
            c
        };
        if !(update is Unsent) {
            assert(c1.wf());
            if seg.payload_len == 0 {
                let m = spec_received_segment(seg, time);
                // An acceptable empty segment starts in or at the
                // window, and covers at most one sequence point.
                assert(seq_delta(c.recv.next.0, m.begin.0) <= c.recv.window);
                assert(spec_seg_len(m) <= 1);
                lemma_set_recv_ack_keeps_wf(c1, m);
            }
        }
    }
}

/// Opening a connection keeps the control block well-formed: exactly
/// one sequence point, the SYN, is outstanding afterwards.
pub proof fn lemma_open_keeps_wf(c: Connection, isn: u32, time: Instant)
    requires
        c.wf(),
    ensures
        spec_open(c, isn, time).wf(),
{
    lemma_delta_of_add(isn, 1);
    lemma_small_delta(1);
}

/// Every egress transition keeps the control block well-formed.
pub proof fn lemma_next_send_keeps_wf(
    c: Connection,
    available: AvailableBytes,
    time: Instant,
    tuple: FourTuple,
)
    requires
        c.wf(),
    ensures
        spec_next_send_segment(c, available, time, tuple).0.wf(),
{
    match c.current {
        State::Established | State::CloseWait => {
            lemma_select_send_keeps_wf(c, available, time, tuple);
        },
        State::FinWait | State::Closing | State::LastAck => {
            let in_flight = seq_delta(c.send.unacked.0, c.send.next.0);
            let capped = AvailableBytes {
                total: if available.total <= in_flight { available.total } else {
                    in_flight as usize
                },
                ..available
            };
            lemma_select_send_keeps_wf(c, capped, time, tuple);
        },
        _ => {
            lemma_delta_self(c.recv.next.0);
        },
    }
}

/// The main send selector keeps the control block well-formed: the
/// send pointer advances by at most one segment inside the scaled
/// window, which fits the forward half of the sequence circle.
proof fn lemma_select_send_keeps_wf(
    c: Connection,
    available: AvailableBytes,
    time: Instant,
    tuple: FourTuple,
)
    requires
        c.wf(),
        spec_data_bearing(c.current),
    ensures
        crate::connection::spec_select_send_segment(c, available, time, tuple).0.wf(),
{
    lemma_delta_self(c.recv.next.0);
    crate::connection::lemma_pow2_scale(c.send.window_scale);
    vstd::arithmetic::mul::lemma_mul_upper_bound(
        c.send.window as int,
        u16::MAX as int,
        vstd::arithmetic::power2::pow2(c.send.window_scale as nat) as int,
        0x4000,
    );
    assert(spec_window_bytes(c.send) <= 0x4000_0000);
    let byte_window = crate::connection::spec_byte_window(available.total);
    let window = spec_window_bytes(c.send);
    let sent = seq_delta(c.send.unacked.0, c.send.next.0);
    let max_sent = if window <= byte_window { window } else { byte_window as int };
    if !(c.duplicate_ack >= 2) && !(c.retransmission_timer.millis < time.millis) && sent
        < max_sent {
        let end = if sent + c.sender_maximum_segment_size <= max_sent {
            sent + c.sender_maximum_segment_size
        } else {
            max_sent
        };
        let is_fin = available.fin && end == available.total;
        let advance = (end - sent) + (if is_fin { 1int } else { 0 });
        lemma_delta_of_add(c.send.next.0, advance);
        lemma_small_delta(advance);
        lemma_delta_chain(
            c.send.unacked.0,
            c.send.next.0,
            seq_add(c.send.next.0, advance) as u32,
        );
        lemma_small_delta(sent + advance);
    }
}

/// The acceptability test, characterized over every window: with a
/// zero window only the empty segment sitting exactly at the receive
/// pointer passes, and a data-bearing segment needs a nonzero window
/// that contains its first or its last byte.
pub proof fn lemma_acceptable_all_cases(c: Connection, seg: Repr)
    ensures
        spec_ingress_acceptable(c, seg) <==> ((seg.payload_len == 0 && c.recv.window == 0
            && seg.seq_number.0 == c.recv.next.0) || (seg.payload_len == 0 && c.recv.window > 0
            && seq_in_window(c.recv.next.0, seg.seq_number.0, c.recv.window as int)) || (
        seg.payload_len > 0 && c.recv.window > 0 && (seq_in_window(
            c.recv.next.0,
            seg.seq_number.0,
            c.recv.window as int,
        ) || seq_in_window(
            c.recv.next.0,
            seq_add(seg.seq_number.0, seg.payload_len - 1),
            c.recv.window as int,
        )))),
        (seg.payload_len > 0 && c.recv.window == 0) ==> !spec_ingress_acceptable(c, seg),
{
}

/// While our SYN is on the wire, any SYN+ACK whose acknowledgement
/// lies strictly above our initial sequence number and at or below our
/// send pointer completes the handshake: the connection is established
/// with the peer's parameters taken over, the acknowledgement timer is
/// armed at once, and nothing is answered.
pub proof fn lemma_syn_ack_completes_open(c: Connection, seg: Repr, time: Instant, tuple: FourTuple)
    requires
        c.current == State::SynSent,
        seg.flags.syn,
        !seg.flags.rst,
        seg.ack_number is Some,
        seq_lt(c.send.initial_seq.0, (seg.ack_number->0).0),
        seq_le((seg.ack_number->0).0, c.send.next.0),
    ensures
        ({
            let (c2, sig) = spec_arrives_syn_sent(c, seg, time, tuple);
            &&& c2.current == State::Established
            &&& c2.previous == State::SynSent
            &&& c2.recv.initial_seq == seg.seq_number
            &&& c2.recv.next == SeqNumber(seq_add(seg.seq_number.0, 1))
            &&& c2.send.unacked == seg.ack_number->0
            &&& c2.send.window == seg.window_len
            &&& c2.sender_maximum_segment_size == spec_negotiated_mss(seg)
            &&& c2.sender_maximum_segment_size >= 536
            &&& c2.ack_timer == Expiration::When(time)
            &&& sig == spec_signals_none()
        }),
{
    let a = seg.ack_number->0;
    let iss = c.send.initial_seq;
    let nxt = c.send.next;
    // Strictly above the initial sequence number means not at or below
    // it: the two forward distances share the circle.
    lemma_delta_self(iss.0);
    assert(a.0 != iss.0);
    lemma_delta_antisym(iss.0, a.0);
    assert(!seq_le(a.0, iss.0));
    // At or below the send pointer means not strictly above it.
    if a.0 != nxt.0 {
        lemma_delta_antisym(nxt.0, a.0);
    } else {
        lemma_delta_self(nxt.0);
    }
    assert(!seq_lt(nxt.0, a.0));
}

/// A SYN inside the window of an open or half-closed connection resets
/// it proactively: the connection closes and asks for deletion, and
/// the answer is a reset at our send pointer that acknowledges
/// everything received.
pub proof fn lemma_in_window_syn_resets(c: Connection, seg: Repr, time: Instant, tuple: FourTuple)
    requires
        c.current == State::Established || c.current == State::FinWait,
        spec_ingress_acceptable(c, seg),
        seg.flags.syn,
    ensures
        ({
            let (c2, sig) = spec_arrives_established(c, seg, time, tuple);
            &&& c2.current == State::Closed
            &&& c2.previous == c.current
            &&& sig.delete
            &&& sig.reset
            &&& sig.answer is Some
            &&& (sig.answer->0).flags.rst
            &&& (sig.answer->0).seq_number == c.send.next
            &&& (sig.answer->0).ack_number == Some(c.recv.next)
            &&& (sig.answer->0).window_len == 0
            &&& c2.recv.acked == c.recv.next
            &&& c2.ack_timer is Never
        }),
{
}

} // verus!
