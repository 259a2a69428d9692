use ethox::connection::{AvailableBytes, Connection, InPacket, ReceivedSegment, State};
use ethox::storage::Resettable;
use ethox::connection::{OutSignals, Segment};
use ethox::endpoint::{EntryKey, FourTuple, IsnGenerator, NoIndex};
use ethox::seqnum::SeqNumber;
use ethox::time::{Duration, Expiration, Instant};
use ethox::wire::{Address, Flags, Repr};

fn simple_connection() -> Connection {
    Connection::zeroed()
}

fn simple_four() -> FourTuple {
    FourTuple {
        local: Address::v4(192, 0, 10, 1),
        remote: Address::v4(192, 0, 10, 2),
        local_port: 80,
        remote_port: 80,
    }
}

fn bare_repr(seq: u32) -> Repr {
    Repr {
        src_port: 80,
        dst_port: 80,
        seq_number: SeqNumber(seq),
        ack_number: None,
        flags: Flags { syn: false, fin: false, rst: false },
        window_len: 0,
        window_scale: None,
        max_seg_size: None,
        sack_permitted: false,
        sack_ranges: [None, None, None],
        payload_len: 0,
    }
}

#[test]
fn resent_syn() {
    let mut connection = simple_connection();
    let isn = IsnGenerator::from_key(0, 0);
    let four = simple_four();

    let time_start = Instant::from_secs(0);
    let time_resend = Instant::from_secs(3);

    let entry = EntryKey::fake(NoIndex, isn, four);
    assert!(connection.open(time_start, &entry).is_ok());

    let entry = EntryKey::fake(NoIndex, isn, four);
    let available = AvailableBytes { fin: false, total: 0 };
    let _resent = connection.next_send_segment(available, time_resend, &entry);
}

#[test]
fn resent_syn_carries_initial_sequence() {
    let mut connection = simple_connection();
    let isn = IsnGenerator::from_key(0, 0);
    let four = simple_four();
    let entry = EntryKey::fake(NoIndex, isn, four);

    assert!(connection.open(Instant::from_secs(0), &entry).is_ok());
    assert_eq!(connection.current, State::SynSent);
    let iss = connection.send.initial_seq;
    assert_eq!(connection.send.unacked, iss);
    assert_eq!(connection.send.next, SeqNumber(iss.0.wrapping_add(1)));
    assert_eq!(connection.retransmission_timer, Instant::from_millis(0));

    let available = AvailableBytes { fin: false, total: 0 };
    let out = connection.next_send_segment(available, Instant::from_secs(3), &entry);
    let segment = out.segment.expect("the SYN must be resent");
    assert!(segment.repr.flags.syn());
    assert!(!segment.repr.flags.rst());
    assert_eq!(segment.repr.seq_number, iss);
    assert_eq!(segment.repr.ack_number, None);
    assert!(!out.delete);
    // The retransmission timer was rearmed away from zero.
    assert!(connection.retransmission_timer.millis >= 3000);
}

#[test]
fn closed_stateless_reset() {
    let mut connection = simple_connection();
    let entry = EntryKey::fake(NoIndex, IsnGenerator::from_key(0, 0), simple_four());

    let mut segment = bare_repr(50);
    segment.ack_number = Some(SeqNumber(100));
    let packet = InPacket { segment, from: Address::v4(192, 0, 10, 2), time: Instant::from_secs(1) };

    let mut entry = entry;
    let signals = connection.arrives(&packet, &mut entry);

    let answer = signals.answer.expect("a reset must be answered");
    assert!(answer.flags.rst());
    assert_eq!(answer.seq_number, SeqNumber(100));
    assert_eq!(answer.ack_number, None);
    assert!(!signals.delete);
    assert!(!signals.reset);
    assert_eq!(connection.current, State::Closed);
}

#[test]
fn closed_acknowledges_whole_segment() {
    let mut connection = simple_connection();
    let mut entry = EntryKey::fake(NoIndex, IsnGenerator::from_key(0, 0), simple_four());

    let mut segment = bare_repr(50);
    segment.payload_len = 3;
    let packet = InPacket { segment, from: Address::v4(192, 0, 10, 2), time: Instant::from_secs(1) };

    let signals = connection.arrives(&packet, &mut entry);

    let answer = signals.answer.expect("an unacked segment is reset with an ack");
    assert!(answer.flags.rst());
    assert_eq!(answer.seq_number, SeqNumber(0));
    assert_eq!(answer.ack_number, Some(SeqNumber(53)));
}

#[test]
fn closed_drops_incoming_reset() {
    let mut connection = simple_connection();
    let mut entry = EntryKey::fake(NoIndex, IsnGenerator::from_key(0, 0), simple_four());

    let mut segment = bare_repr(50);
    segment.flags = Flags { syn: false, fin: false, rst: true };
    let packet = InPacket { segment, from: Address::v4(192, 0, 10, 2), time: Instant::from_secs(1) };

    let signals = connection.arrives(&packet, &mut entry);
    assert_eq!(signals.answer, None);
    assert!(!signals.delete);
}

#[test]
fn stray_ack_in_listen() {
    let mut connection = simple_connection();
    connection.current = State::Listen;
    let mut entry = EntryKey::fake(NoIndex, IsnGenerator::from_key(0, 0), simple_four());

    let mut segment = bare_repr(11);
    segment.ack_number = Some(SeqNumber(7));
    let packet = InPacket { segment, from: Address::v4(192, 0, 10, 2), time: Instant::from_secs(1) };

    let signals = connection.arrives(&packet, &mut entry);

    let answer = signals.answer.expect("a stray ack is reset");
    assert!(answer.flags.rst());
    assert_eq!(answer.seq_number, SeqNumber(7));
    assert_eq!(connection.current, State::Listen);
    assert!(!signals.delete);
}

#[test]
fn three_way_handshake() {
    let mut connection = simple_connection();
    connection.current = State::Listen;
    let isn_gen = IsnGenerator::from_key(3, 4);
    let listen_four = FourTuple { remote: Address::Unspecified, ..simple_four() };
    let mut entry = EntryKey::fake(NoIndex, isn_gen, listen_four);
    let peer = Address::v4(192, 0, 10, 2);

    // First leg: the SYN.
    let mut syn = bare_repr(7777);
    syn.flags = Flags { syn: true, fin: false, rst: false };
    let packet = InPacket { segment: syn, from: peer, time: Instant::from_secs(1) };
    let signals = connection.arrives(&packet, &mut entry);

    assert_eq!(connection.current, State::SynReceived);
    assert_eq!(entry.tuple.remote, peer);
    let answer = signals.answer.expect("the SYN is answered");
    assert!(answer.flags.syn());
    assert!(!answer.flags.rst());
    assert_eq!(answer.ack_number, Some(SeqNumber(7778)));
    let iss = connection.send.initial_seq;
    assert_eq!(answer.seq_number, iss);
    assert_eq!(connection.recv.next, SeqNumber(7778));

    // Second leg: the handshake acknowledgement.
    let mut ack = bare_repr(7778);
    ack.ack_number = Some(SeqNumber(iss.0.wrapping_add(1)));
    let packet = InPacket { segment: ack, from: peer, time: Instant::from_secs(2) };
    let signals = connection.arrives(&packet, &mut entry);

    assert_eq!(connection.current, State::Established);
    assert_eq!(connection.send.unacked, SeqNumber(iss.0.wrapping_add(1)));
    assert_eq!(connection.recv.next, SeqNumber(7778));
    assert_eq!(signals.answer, None);
    assert!(!signals.delete);
}

#[test]
fn active_open_round_trip() {
    let mut connection = simple_connection();
    connection.retransmission_timeout = Duration::from_millis(1000);
    let isn_gen = IsnGenerator::from_key(5, 6);
    let four = simple_four();
    let mut entry = EntryKey::fake(NoIndex, isn_gen, four);

    assert!(connection.open(Instant::from_secs(0), &entry).is_ok());
    assert_eq!(connection.current, State::SynSent);
    let iss = connection.send.initial_seq;

    // First poll: the SYN goes out.
    let available = AvailableBytes { fin: false, total: 0 };
    let out = connection.next_send_segment(available, Instant::from_secs(0), &entry);
    let segment = out.segment.expect("the SYN must go out");
    assert!(segment.repr.flags.syn());
    assert_eq!(segment.repr.seq_number, iss);
    assert_eq!(segment.repr.ack_number, None);

    // The peer answers with a SYN+ACK.
    let mut synack = bare_repr(5000);
    synack.flags = Flags { syn: true, fin: false, rst: false };
    synack.ack_number = Some(SeqNumber(iss.0.wrapping_add(1)));
    synack.window_len = 1000;
    synack.max_seg_size = Some(1400);
    let packet = InPacket { segment: synack, from: four.remote, time: Instant::from_millis(100) };
    let signals = connection.arrives(&packet, &mut entry);

    assert_eq!(connection.current, State::Established);
    assert_eq!(connection.send.unacked, SeqNumber(iss.0.wrapping_add(1)));
    assert_eq!(connection.recv.next, SeqNumber(5001));
    assert_eq!(connection.sender_maximum_segment_size, 1400);
    assert_eq!(connection.send.window, 1000);
    assert_eq!(signals.answer, None);

    // Second poll: the handshake acknowledgement goes out.
    let out = connection.next_send_segment(available, Instant::from_millis(200), &entry);
    let segment = out.segment.expect("the handshake must be acked");
    assert!(!segment.repr.flags.syn());
    assert_eq!(segment.repr.ack_number, Some(SeqNumber(5001)));
    assert_eq!(connection.recv.acked, SeqNumber(5001));
}

fn established_connection() -> Connection {
    let mut connection = simple_connection();
    connection.current = State::Established;
    connection.sender_maximum_segment_size = 536;
    connection.receiver_maximum_segment_size = 536;
    connection.retransmission_timeout = Duration::from_millis(1000);
    connection.retransmission_timer = Instant::from_millis(1_000_000);
    connection.restart_timeout = Duration::from_millis(10_000_000);
    connection
}

#[test]
fn duplicate_ack_escalation() {
    let mut connection = established_connection();
    connection.send.unacked = SeqNumber(1000);
    connection.send.next = SeqNumber(1500);
    connection.send.window = 1000;
    let mut entry = EntryKey::fake(NoIndex, IsnGenerator::from_key(0, 0), simple_four());

    // Three duplicates of the same acknowledgement in a row.
    for i in 0..3u8 {
        let mut segment = bare_repr(0);
        segment.ack_number = Some(SeqNumber(1000));
        let packet =
            InPacket { segment, from: Address::v4(192, 0, 10, 2), time: Instant::from_millis(i as u64) };
        let signals = connection.arrives(&packet, &mut entry);
        assert_eq!(signals.answer, None);
        assert_eq!(connection.duplicate_ack, i + 1);
    }
    assert_eq!(connection.send.unacked, SeqNumber(1000));

    // The next egress poll fast-retransmits from the unacked point.
    let available = AvailableBytes { fin: false, total: 600 };
    let out = connection.next_send_segment(available, Instant::from_millis(10), &entry);
    let segment = out.segment.expect("a fast retransmission is due");
    assert_eq!(segment.repr.seq_number, SeqNumber(1000));
    assert_eq!(segment.repr.payload_len, 536);
    assert_eq!(segment.begin, 0);
    assert_eq!(segment.end, 536);
    assert!(!out.delete);
}

#[test]
fn genuine_ack_leaves_fast_recovery() {
    let mut connection = established_connection();
    connection.send.unacked = SeqNumber(1000);
    connection.send.next = SeqNumber(1500);
    connection.flow_control.ssthresh = 8;
    connection.flow_control.congestion_window = 4;
    let mut entry = EntryKey::fake(NoIndex, IsnGenerator::from_key(0, 0), simple_four());

    for _ in 0..2 {
        let mut segment = bare_repr(0);
        segment.ack_number = Some(SeqNumber(1000));
        let packet =
            InPacket { segment, from: Address::v4(192, 0, 10, 2), time: Instant::from_millis(1) };
        let _ = connection.arrives(&packet, &mut entry);
    }
    assert_eq!(connection.duplicate_ack, 2);

    // A genuine advance resets the counter and the congestion window
    // leaves fast recovery (and then grows by slow start).
    let mut segment = bare_repr(0);
    segment.ack_number = Some(SeqNumber(1200));
    let packet = InPacket { segment, from: Address::v4(192, 0, 10, 2), time: Instant::from_millis(2) };
    let _ = connection.arrives(&packet, &mut entry);

    assert_eq!(connection.duplicate_ack, 0);
    assert_eq!(connection.send.unacked, SeqNumber(1200));
    assert_eq!(connection.flow_control.congestion_window, 16);
}

#[test]
fn unacceptable_segment_answers_bare_ack() {
    let mut connection = established_connection();
    connection.recv.next = SeqNumber(500);
    connection.recv.window = 100;
    connection.send.next = SeqNumber(4242);
    let mut entry = EntryKey::fake(NoIndex, IsnGenerator::from_key(0, 0), simple_four());

    let mut segment = bare_repr(200);
    segment.payload_len = 10;
    let packet = InPacket { segment, from: Address::v4(192, 0, 10, 2), time: Instant::from_secs(1) };
    let signals = connection.arrives(&packet, &mut entry);

    let answer = signals.answer.expect("an unacceptable segment is answered");
    assert!(!answer.flags.rst());
    assert_eq!(answer.seq_number, SeqNumber(4242));
    assert_eq!(answer.ack_number, Some(SeqNumber(500)));
    assert_eq!(answer.payload_len, 0);
    assert_eq!(connection.current, State::Established);
    assert!(!signals.delete);
}

#[test]
fn incoming_reset_closes_connection() {
    let mut connection = established_connection();
    connection.recv.next = SeqNumber(500);
    connection.recv.window = 100;
    let mut entry = EntryKey::fake(NoIndex, IsnGenerator::from_key(0, 0), simple_four());

    // A reset outside the window: the reset path runs before the
    // bare-ack answer for unacceptable segments.
    let mut segment = bare_repr(200);
    segment.flags = Flags { syn: false, fin: false, rst: true };
    let packet = InPacket { segment, from: Address::v4(192, 0, 10, 2), time: Instant::from_secs(1) };
    let signals = connection.arrives(&packet, &mut entry);

    assert!(signals.reset);
    assert!(signals.delete);
    assert_eq!(signals.answer, None);
    assert_eq!(connection.current, State::Closed);
}

#[test]
fn graceful_close_active() {
    let mut connection = established_connection();
    connection.send.unacked = SeqNumber(100);
    connection.send.next = SeqNumber(100);
    connection.send.window = 1000;
    connection.recv.next = SeqNumber(900);
    connection.recv.acked = SeqNumber(900);
    connection.recv.window = 100;
    let mut entry = EntryKey::fake(NoIndex, IsnGenerator::from_key(0, 0), simple_four());

    // The tail of the user's buffer goes out with the FIN.
    let available = AvailableBytes { fin: true, total: 5 };
    let out = connection.next_send_segment(available, Instant::from_millis(10), &entry);
    let segment = out.segment.expect("the closing segment must go out");
    assert!(segment.repr.flags.fin());
    assert_eq!(segment.repr.payload_len, 5);
    assert_eq!(connection.current, State::FinWait);
    assert_eq!(connection.send.next, SeqNumber(106));

    // The peer acknowledges our FIN, then closes its own side.
    let mut ack = bare_repr(900);
    ack.ack_number = Some(SeqNumber(106));
    let packet = InPacket { segment: ack, from: Address::v4(192, 0, 10, 2), time: Instant::from_secs(1) };
    let signals = connection.arrives(&packet, &mut entry);
    assert_eq!(signals.answer, None);
    assert_eq!(connection.send.unacked, SeqNumber(106));
    assert_eq!(connection.current, State::FinWait);

    let mut fin = bare_repr(900);
    fin.flags = Flags { syn: false, fin: true, rst: false };
    fin.ack_number = Some(SeqNumber(106));
    let packet = InPacket { segment: fin, from: Address::v4(192, 0, 10, 2), time: Instant::from_secs(2) };
    let signals = connection.arrives(&packet, &mut entry);
    assert_eq!(signals.answer, None);
    assert_eq!(connection.current, State::TimeWait);
    assert_eq!(connection.recv.next, SeqNumber(901));
    // The linger timer is twice the retransmission timeout from the
    // peer's FIN.
    assert_eq!(connection.retransmission_timer, Instant::from_millis(4000));

    // Lingering: first flush the final acknowledgement ...
    let available = AvailableBytes { fin: true, total: 0 };
    let out = connection.next_send_segment(available, Instant::from_secs(5), &entry);
    let segment = out.segment.expect("the peer's FIN is acknowledged");
    assert_eq!(segment.repr.ack_number, Some(SeqNumber(901)));
    assert!(!out.delete);

    // ... then, polled past the linger timer, ask for deletion.
    let out = connection.next_send_segment(available, Instant::from_secs(5), &entry);
    assert!(out.delete);
    assert_eq!(out.segment, None);
}

#[test]
fn set_recv_ack_is_idempotent() {
    let mut connection = established_connection();
    connection.recv.next = SeqNumber(500);
    connection.recv.acked = SeqNumber(500);
    connection.ack_timeout = Duration::from_millis(100);

    let meta = ReceivedSegment {
        syn: false,
        fin: false,
        data_len: 10,
        begin: SeqNumber(500),
        timestamp: Instant::from_secs(1),
    };

    connection.set_recv_ack(meta);
    assert_eq!(connection.recv.next, SeqNumber(510));
    assert_eq!(connection.ack_timer, Expiration::When(Instant::from_millis(1100)));
    let once = connection;

    connection.set_recv_ack(meta);
    assert_eq!(connection.recv.next, SeqNumber(510));
    assert_eq!(connection, once);
}

#[test]
fn syn_sent_rejects_foreign_ack() {
    let mut connection = simple_connection();
    let mut entry = EntryKey::fake(NoIndex, IsnGenerator::from_key(0, 0), simple_four());
    assert!(connection.open(Instant::from_secs(0), &entry).is_ok());
    let iss = connection.send.initial_seq;

    let mut segment = bare_repr(4000);
    segment.ack_number = Some(SeqNumber(iss.0.wrapping_add(1000)));
    let packet = InPacket { segment, from: Address::v4(192, 0, 10, 2), time: Instant::from_secs(1) };
    let signals = connection.arrives(&packet, &mut entry);

    let answer = signals.answer.expect("a foreign ack is reset");
    assert!(answer.flags.rst());
    assert_eq!(answer.seq_number, SeqNumber(iss.0.wrapping_add(1000)));
    assert_eq!(answer.ack_number, Some(SeqNumber(4000)));
    assert_eq!(connection.current, State::SynSent);
}

#[test]
fn open_is_illegal_when_established() {
    let mut connection = established_connection();
    let entry = EntryKey::fake(NoIndex, IsnGenerator::from_key(0, 0), simple_four());
    let before = connection;

    let result = connection.open(Instant::from_secs(1), &entry);
    assert_eq!(result, Err(ethox::Error::Illegal));
    assert_eq!(connection, before);
}

#[test]
fn get_send_ack_offsets_handshake_points() {
    let mut connection = simple_connection();
    connection.current = State::SynSent;
    connection.send.unacked = SeqNumber(100);
    connection.send.next = SeqNumber(101);
    assert_eq!(connection.get_send_ack(), SeqNumber(101));

    connection.current = State::Established;
    assert_eq!(connection.get_send_ack(), SeqNumber(100));

    connection.current = State::FinWait;
    connection.send.next = SeqNumber(100);
    assert_eq!(connection.get_send_ack(), SeqNumber(99));

    connection.current = State::FinWait;
    connection.send.next = SeqNumber(150);
    assert_eq!(connection.get_send_ack(), SeqNumber(100));
}

#[test]
fn listen_ignores_reset() {
    let mut connection = simple_connection();
    connection.current = State::Listen;
    let mut entry = EntryKey::fake(NoIndex, IsnGenerator::from_key(0, 0), simple_four());

    let mut segment = bare_repr(3);
    segment.flags = Flags { syn: false, fin: false, rst: true };
    let packet = InPacket { segment, from: Address::v4(192, 0, 10, 2), time: Instant::from_secs(1) };

    let signals = connection.arrives(&packet, &mut entry);
    assert_eq!(signals.answer, None);
    assert_eq!(connection.current, State::Listen);
}

#[test]
fn syn_sent_acknowledged_reset_closes() {
    let mut connection = simple_connection();
    let mut entry = EntryKey::fake(NoIndex, IsnGenerator::from_key(0, 0), simple_four());
    assert!(connection.open(Instant::from_secs(0), &entry).is_ok());
    let iss = connection.send.initial_seq;

    let mut segment = bare_repr(0);
    segment.flags = Flags { syn: false, fin: false, rst: true };
    segment.ack_number = Some(SeqNumber(iss.0.wrapping_add(1)));
    let packet = InPacket { segment, from: Address::v4(192, 0, 10, 2), time: Instant::from_secs(1) };

    let signals = connection.arrives(&packet, &mut entry);
    assert!(signals.reset);
    assert!(signals.delete);
    assert_eq!(signals.answer, None);
    assert_eq!(connection.current, State::Closed);
}

#[test]
fn simultaneous_open_crosses_to_syn_received() {
    let mut connection = simple_connection();
    let mut entry = EntryKey::fake(NoIndex, IsnGenerator::from_key(0, 0), simple_four());
    assert!(connection.open(Instant::from_secs(0), &entry).is_ok());
    let iss = connection.send.initial_seq;

    // The peer opens towards us at the same time: a SYN without an ack.
    let mut segment = bare_repr(9000);
    segment.flags = Flags { syn: true, fin: false, rst: false };
    let packet = InPacket { segment, from: Address::v4(192, 0, 10, 2), time: Instant::from_secs(1) };

    let signals = connection.arrives(&packet, &mut entry);
    assert_eq!(connection.current, State::SynReceived);
    let answer = signals.answer.expect("the crossed open is answered");
    assert!(answer.flags.syn());
    assert_eq!(answer.seq_number, iss);
    assert_eq!(answer.ack_number, Some(SeqNumber(9001)));
    assert_eq!(answer.window_scale, Some(connection.send.window_scale));
}

#[test]
fn zero_window_accepts_only_the_receive_pointer() {
    let mut connection = established_connection();
    connection.recv.next = SeqNumber(500);
    connection.recv.acked = SeqNumber(500);
    connection.recv.window = 0;
    connection.send.unacked = SeqNumber(100);
    connection.send.next = SeqNumber(100);
    let mut entry = EntryKey::fake(NoIndex, IsnGenerator::from_key(0, 0), simple_four());

    // An empty segment sitting exactly at the receive pointer passes.
    let mut segment = bare_repr(500);
    segment.ack_number = Some(SeqNumber(100));
    let packet = InPacket { segment, from: Address::v4(192, 0, 10, 2), time: Instant::from_secs(1) };
    let signals = connection.arrives(&packet, &mut entry);
    assert_eq!(signals.answer, None);

    // With a zero window even a byte at the pointer is unacceptable.
    let mut segment = bare_repr(500);
    segment.payload_len = 1;
    let packet = InPacket { segment, from: Address::v4(192, 0, 10, 2), time: Instant::from_secs(1) };
    let signals = connection.arrives(&packet, &mut entry);
    assert!(signals.answer.is_some());
    assert_eq!(signals.receive, None);
}

#[test]
fn passive_close_via_received_fin() {
    let mut connection = established_connection();
    connection.recv.next = SeqNumber(500);
    connection.recv.acked = SeqNumber(500);
    connection.recv.window = 100;
    connection.send.unacked = SeqNumber(100);
    connection.send.next = SeqNumber(100);
    connection.ack_timeout = Duration::from_millis(100);
    let mut entry = EntryKey::fake(NoIndex, IsnGenerator::from_key(0, 0), simple_four());

    // Ten bytes arrive together with the peer's FIN.
    let mut segment = bare_repr(500);
    segment.payload_len = 10;
    segment.flags = Flags { syn: false, fin: true, rst: false };
    segment.ack_number = Some(SeqNumber(100));
    let packet = InPacket { segment, from: Address::v4(192, 0, 10, 2), time: Instant::from_secs(1) };

    let signals = connection.arrives(&packet, &mut entry);
    let received = signals.receive.expect("the data is handed upward");
    assert_eq!(received.data_len, 10);
    assert!(received.fin);
    assert_eq!(received.begin, SeqNumber(500));
    // The state advances only once the reader commits the bytes.
    assert_eq!(connection.current, State::Established);

    connection.set_recv_ack(received);
    assert_eq!(connection.current, State::CloseWait);
    assert_eq!(connection.recv.next, SeqNumber(511));
}

#[test]
fn connection_resets_to_zeroed() {
    let mut connection = established_connection();
    connection.send.next = SeqNumber(4711);
    connection.reset();
    assert_eq!(connection, Connection::zeroed());
    assert_eq!(connection.current, State::Closed);
}

#[test]
fn out_signals_constructors() {
    let none = OutSignals::none();
    assert!(!none.delete);
    assert_eq!(none.segment, None);

    let segment = Segment { repr: bare_repr(1), begin: 0, end: 0 };
    let out = OutSignals::segment(segment);
    assert!(!out.delete);
    assert_eq!(out.segment.unwrap().repr.seq_number, SeqNumber(1));
}

#[test]
fn reset_in_closing_states_deletes() {
    // In every state past the handshake but Established and FinWait,
    // an in-window reset tears the connection down outright.
    for state in [
        State::SynReceived,
        State::Closing,
        State::CloseWait,
        State::LastAck,
        State::TimeWait,
    ] {
        let mut connection = established_connection();
        connection.current = state;
        connection.recv.next = SeqNumber(500);
        connection.recv.window = 100;
        let mut entry = EntryKey::fake(NoIndex, IsnGenerator::from_key(0, 0), simple_four());

        let mut segment = bare_repr(500);
        segment.flags = Flags { syn: false, fin: false, rst: true };
        let packet =
            InPacket { segment, from: Address::v4(192, 0, 10, 2), time: Instant::from_secs(1) };
        let signals = connection.arrives(&packet, &mut entry);

        assert!(signals.reset);
        assert!(signals.delete);
        assert_eq!(signals.answer, None);
        assert_eq!(connection.current, State::Closed);
        assert_eq!(connection.previous, state);
    }
}

#[test]
fn reset_in_established_needs_no_teardown_when_acceptable() {
    // An open connection handles resets on the unacceptable path only:
    // an in-window reset without an acknowledgement is dropped.
    let mut connection = established_connection();
    connection.recv.next = SeqNumber(500);
    connection.recv.window = 100;
    let mut entry = EntryKey::fake(NoIndex, IsnGenerator::from_key(0, 0), simple_four());

    let mut segment = bare_repr(500);
    segment.flags = Flags { syn: false, fin: false, rst: true };
    let packet = InPacket { segment, from: Address::v4(192, 0, 10, 2), time: Instant::from_secs(1) };
    let signals = connection.arrives(&packet, &mut entry);

    assert!(!signals.reset);
    assert!(!signals.delete);
    assert_eq!(connection.current, State::Established);
}
