//! The per-endpoint machinery a single connection needs during one
//! handler call: its four-tuple identity, the keyed initial sequence
//! number generator, and the remap hook that keeps the endpoint's
//! tuple index in step when a slot changes identity.

use vstd::prelude::*;
use crate::connection::Connection;
use crate::seqnum::SeqNumber;
use crate::time::Instant;
use crate::wire::Address;

verus! {

/// The identity of a connection: both addresses and both ports.
#[derive(Clone, Copy, Debug, Hash, PartialEq, Eq, Structural)]
pub struct FourTuple {
    /// Our address.
    pub local: Address,
    /// The peer's address.
    pub remote: Address,
    /// Our port.
    pub local_port: u16,
    /// The peer's port.
    pub remote_port: u16,
}

/// A keyed generator of initial sequence numbers.
///
/// The sequence number is a keyed mix over the four-tuple and a coarse
/// time epoch, so that initial sequence numbers are hard to predict
/// across four-tuples at a fixed instant while remaining a pure
/// function of key, tuple and time.
#[derive(Clone, Copy, Debug, PartialEq, Eq, Structural)]
pub struct IsnGenerator {
    /// The first half of the secret key.
    pub key_a: u64,
    /// The second half of the secret key.
    pub key_b: u64,
}

/// A tuple-to-key index with the entry for `from` moved to `to`; an
/// index without such an entry is left alone.
pub open spec fn spec_remapped(
    index: Map<FourTuple, SlotKey>,
    from: FourTuple,
    to: FourTuple,
) -> Map<FourTuple, SlotKey> {
    if index.dom().contains(from) {
        index.remove(from).insert(to, index[from])
    } else {
        index
    }
}

/// The hook by which a connection announces that its slot's identity
/// changed, so that the endpoint can move its tuple index atomically
/// relative to the running handler call.  Implemented by the endpoint
/// that owns the connection table.
pub trait PortMap {
    /// The tuple-to-key index as this hook sees it.
    spec fn index(&self) -> Map<FourTuple, SlotKey>;

    /// Move the index entry for `from` to `to`.
    fn remap(&mut self, from: FourTuple, to: FourTuple)
        ensures
            final(self).index() == spec_remapped(old(self).index(), from, to),
    ;
}

/// The remap hook of an endpoint that keeps no tuple index: the index
/// is empty and stays empty, so there is never an entry to move.
pub struct NoIndex;

impl PortMap for NoIndex {
    open spec fn index(&self) -> Map<FourTuple, SlotKey> {
        Map::empty()
    }

    fn remap(&mut self, _from: FourTuple, _to: FourTuple) {
    }
}

/// One round of 64-bit avalanche mixing.
pub open spec fn spec_mix64(z: u64) -> u64 {
    let a = (z ^ (z >> 30)).wrapping_mul(0xbf58476d1ce4e5b9);
    let b = (a ^ (a >> 27)).wrapping_mul(0x94d049bb133111eb);
    b ^ (b >> 31)
}

/// An address folded into one word, tagged by its kind.
pub open spec fn spec_addr_word(a: Address) -> u64 {
    match a {
        Address::Unspecified => 1,
        Address::Ipv4(v) => 2u64 ^ spec_mix64(v as u64),
        Address::Ipv6(v) => {
            let lo = (v % 0x1_0000_0000_0000_0000) as u64;
            let hi = (v / 0x1_0000_0000_0000_0000) as u64;
            4u64 ^ spec_mix64(lo) ^ spec_mix64(hi)
        },
    }
}

/// The initial sequence number drawn for `tuple` at `time` under the
/// generator's key.
pub open spec fn spec_isn(gen: IsnGenerator, tuple: FourTuple, time: Instant) -> u32 {
    let a = spec_mix64(gen.key_a ^ spec_addr_word(tuple.local));
    let b = spec_mix64(a ^ gen.key_b ^ spec_addr_word(tuple.remote));
    let ports = ((tuple.local_port as u64) * 0x1_0000 + (tuple.remote_port as u64)) as u64;
    let c = spec_mix64(b ^ ports);
    let d = spec_mix64(c ^ (time.millis / 4));
    (d % 0x1_0000_0000) as u32
}

fn mix64(z: u64) -> (r: u64)
    ensures
        r == spec_mix64(z),
{
    let a = (z ^ (z >> 30)).wrapping_mul(0xbf58476d1ce4e5b9);
    let b = (a ^ (a >> 27)).wrapping_mul(0x94d049bb133111eb);
    b ^ (b >> 31)
}

fn addr_word(a: &Address) -> (r: u64)
    ensures
        r == spec_addr_word(*a),
{
    match a {
        Address::Unspecified => 1,
        Address::Ipv4(v) => 2u64 ^ mix64(*v as u64),
        Address::Ipv6(v) => {
            let lo = (*v % 0x1_0000_0000_0000_0000) as u64;
            let hi = (*v / 0x1_0000_0000_0000_0000) as u64;
            4u64 ^ mix64(lo) ^ mix64(hi)
        },
    }
}

impl IsnGenerator {
    /// A generator over the given key halves.
    pub fn from_key(key_a: u64, key_b: u64) -> (r: IsnGenerator)
        ensures
            r == (IsnGenerator { key_a, key_b }),
    {
        IsnGenerator { key_a, key_b }
    }

    /// Draw the initial sequence number for `tuple` at `time`.
    pub fn initial_seq_num(&self, tuple: FourTuple, time: Instant) -> (r: SeqNumber)
        ensures
            r.0 == spec_isn(*self, tuple, time),
    {
        let a = mix64(self.key_a ^ addr_word(&tuple.local));
        let b = mix64(a ^ self.key_b ^ addr_word(&tuple.remote));
        let ports = (tuple.local_port as u64) * 0x1_0000 + (tuple.remote_port as u64);
        let c = mix64(b ^ ports);
        let d = mix64(c ^ (time.millis / 4));
        SeqNumber((d % 0x1_0000_0000) as u32)
    }
}

/// A scoped handle granting one connection access to its own slot's
/// identity and to the endpoint's sequence number generator for the
/// duration of a single handler call.
pub struct EntryKey<M: PortMap> {
    /// The endpoint's initial sequence number generator.
    pub isn: IsnGenerator,
    /// The four-tuple identifying the slot.
    pub tuple: FourTuple,
    /// The endpoint's remap hook, told of every identity change.
    pub remap: M,
}

impl<M: PortMap> EntryKey<M> {
    /// Assemble an entry key directly from its parts.
    pub fn fake(remap: M, isn: IsnGenerator, tuple: FourTuple) -> (r: Self)
        ensures
            r.isn == isn,
            r.tuple == tuple,
    {
        EntryKey { isn, tuple, remap }
    }

    /// The four-tuple currently identifying the slot.
    pub fn four_tuple(&self) -> (r: FourTuple)
        ensures
            r == self.tuple,
    {
        self.tuple
    }

    /// Change the slot's identity, remapping the endpoint's index.
    pub fn set_four_tuple(&mut self, new: FourTuple)
        ensures
            final(self).tuple == new,
            final(self).isn == old(self).isn,
            final(self).remap.index() == spec_remapped(
                old(self).remap.index(),
                old(self).tuple,
                new,
            ),
    {
        let current = self.tuple;
        self.remap.remap(current, new);
        self.tuple = new;
    }

    /// Draw the initial sequence number for the current identity.
    pub fn initial_seq_num(&self, time: Instant) -> (r: SeqNumber)
        ensures
            r.0 == spec_isn(self.isn, self.tuple, time),
    {
        self.isn.initial_seq_num(self.tuple, time)
    }
}

/// A stable index into an endpoint's connection table.
///
/// It survives table growth and is not a pointer; only the endpoint
/// that issued it can resolve it.
#[derive(Clone, Copy, Debug, Hash, PartialEq, Eq, Structural)]
pub struct SlotKey(pub usize);

/// One entry of the connection table: a connection, the four-tuple
/// identifying it, and whether the slot is a listener or an active
/// connection.
#[derive(Clone, Copy, Debug, PartialEq)]
pub struct Slot {
    /// The connection owned by the slot.
    pub connection: Connection,
    /// The four-tuple identifying the slot.
    pub four: FourTuple,
    /// Whether the slot listens rather than converses.
    pub listener: bool,
}

impl Slot {
    /// The four-tuple identifying the slot.
    pub fn four_tuple(&self) -> (r: FourTuple)
        ensures
            r == self.four,
    {
        self.four
    }

    /// The connection owned by the slot.
    pub fn connection(&self) -> (r: &Connection)
        ensures
            r == &self.connection,
    {
        &self.connection
    }
}

} // verus!
