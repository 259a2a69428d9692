use ethox::connection::{Connection, Receive, ReceivedSegment, Send, State};
use ethox::endpoint::Slot;
use ethox::endpoint::{FourTuple, IsnGenerator};
use ethox::seqnum::SeqNumber;
use ethox::time::{Duration, Expiration, Instant};
use ethox::wire::{Address, Flags, Repr};

#[test]
fn windowed_ordering_wraps() {
    // Just past the wrap point, the smaller raw number is ahead.
    assert!(SeqNumber(0xffff_ffff).windowed_lt(SeqNumber(3)));
    assert!(!SeqNumber(3).windowed_lt(SeqNumber(0xffff_ffff)));
    assert!(SeqNumber(5).windowed_le(SeqNumber(5)));
    assert!(!SeqNumber(5).windowed_lt(SeqNumber(5)));
    // Far apart, the ordering flips direction.
    assert!(SeqNumber(0).windowed_lt(SeqNumber(0x7fff_ffff)));
    assert!(!SeqNumber(0).windowed_lt(SeqNumber(0x8000_0001)));
}

#[test]
fn window_containment_wraps() {
    let base = SeqNumber(0xffff_fff0);
    assert!(base.contains_in_window(SeqNumber(5), 32));
    assert!(!base.contains_in_window(SeqNumber(40), 32));
    assert!(base.contains_in_window(SeqNumber(0xffff_fff0), 1));
    assert!(!base.contains_in_window(SeqNumber(0xffff_ffef), 16));
}

#[test]
fn sequence_arithmetic_wraps() {
    assert_eq!(SeqNumber(0xffff_ffff).wrapping_add(2), SeqNumber(1));
    assert_eq!(SeqNumber(1).wrapping_back(2), SeqNumber(0xffff_ffff));
    assert_eq!(SeqNumber(3).wrapping_sub(SeqNumber(0xffff_ffff)), 4);
}

#[test]
fn expiration_orders_with_never_last() {
    let five = Expiration::When(Instant::from_millis(5));
    let nine = Expiration::When(Instant::from_millis(9));
    assert_eq!(Expiration::Never.earlier_of(five), five);
    assert_eq!(five.earlier_of(Expiration::Never), five);
    assert_eq!(five.earlier_of(nine), five);
    assert_eq!(nine.earlier_of(five), five);
    assert!(!Expiration::Never.due_by(Instant::from_millis(u64::MAX)));
    assert!(five.due_by(Instant::from_millis(5)));
    assert!(!five.due_by(Instant::from_millis(4)));
}

#[test]
fn instant_sums_saturate() {
    let late = Instant::from_millis(u64::MAX - 10);
    let sum = late.plus(Duration::from_millis(100));
    assert_eq!(sum.millis, u64::MAX);
    let exact = Instant::from_millis(40).plus(Duration::from_millis(2));
    assert_eq!(exact.millis, 42);
    assert_eq!(Duration::from_millis(u64::MAX).doubled().millis, u64::MAX);
    assert_eq!(Duration::from_millis(21).doubled().millis, 42);
}

#[test]
fn update_window_rounds_up_and_caps() {
    let mut recv = Receive {
        next: SeqNumber(0),
        acked: SeqNumber(0),
        last_time: Instant::from_millis(0),
        window: 0,
        window_scale: 3,
        initial_seq: SeqNumber(0),
    };
    recv.update_window(1000);
    assert_eq!(recv.window, 125);
    recv.update_window(1001);
    assert_eq!(recv.window, 126);
    recv.update_window(usize::MAX);
    assert_eq!(recv.window, u16::MAX);
    recv.window_scale = 0;
    recv.update_window(70000);
    assert_eq!(recv.window, u16::MAX);
    recv.update_window(0);
    assert_eq!(recv.window, 0);
}

#[test]
fn received_segment_measures_sequence_space() {
    let seg = ReceivedSegment {
        syn: true,
        fin: true,
        data_len: 10,
        begin: SeqNumber(100),
        timestamp: Instant::from_millis(0),
    };
    assert_eq!(seg.sequence_len(), 12);
    assert_eq!(seg.data_begin(), SeqNumber(101));
    assert_eq!(seg.data_end(), SeqNumber(111));
    assert_eq!(seg.sequence_end(), SeqNumber(112));
    assert!(seg.contains_in_window(SeqNumber(111)));
    assert!(!seg.contains_in_window(SeqNumber(112)));

    // Acknowledging short of the end drops the FIN; covering it all
    // keeps the FIN.
    let partial = seg.acked_until(SeqNumber(105));
    assert!(!partial.fin);
    let full = seg.acked_until(SeqNumber(111));
    assert!(full.fin);
}

#[test]
fn repr_sequence_len_counts_flags() {
    let repr = Repr {
        src_port: 1,
        dst_port: 2,
        seq_number: SeqNumber(9),
        ack_number: None,
        flags: Flags { syn: true, fin: false, rst: false },
        window_len: 0,
        window_scale: None,
        max_seg_size: None,
        sack_permitted: false,
        sack_ranges: [None, None, None],
        payload_len: 7,
    };
    assert_eq!(repr.sequence_len(), 8);
}

#[test]
fn initial_seq_num_is_a_function_of_its_inputs() {
    let gen = IsnGenerator::from_key(17, 4711);
    let four = FourTuple {
        local: Address::v4(10, 0, 0, 1),
        remote: Address::v4(10, 0, 0, 2),
        local_port: 80,
        remote_port: 4312,
    };
    let t = Instant::from_millis(1234);
    let a = gen.initial_seq_num(four, t);
    let b = gen.initial_seq_num(four, t);
    assert_eq!(a, b);
}

#[test]
fn send_state_is_plain_data() {
    let send = Send {
        unacked: SeqNumber(10),
        next: SeqNumber(20),
        last_time: Instant::from_millis(0),
        unsent: 0,
        window: 6,
        window_scale: 2,
        initial_seq: SeqNumber(1),
    };
    let copy = send;
    assert_eq!(send, copy);
}

#[test]
fn slot_exposes_its_identity() {
    let four = FourTuple {
        local: Address::v4(10, 0, 0, 1),
        remote: Address::v4(10, 0, 0, 2),
        local_port: 80,
        remote_port: 4312,
    };
    let slot = Slot { connection: Connection::zeroed(), four, listener: true };
    assert_eq!(slot.four_tuple(), four);
    assert_eq!(slot.connection().current, State::Closed);
}
