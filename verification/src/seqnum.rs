//! 32-bit TCP sequence numbers with windowed, modular ordering.
//!
//! All comparisons on sequence numbers use the windowed ordering: `a` is
//! below `b` iff the modular distance from `a` to `b` lies in the forward
//! half of the sequence circle.  Raw integer comparison is never used on
//! wire sequence numbers.

use vstd::prelude::*;

verus! {

/// The modular distance from `base` forward to `probe`:
/// `(probe - base) mod 2^32`, always in `[0, 2^32)`.
pub open spec fn seq_delta(base: u32, probe: u32) -> int {
    (probe - base) % 0x1_0000_0000
}

/// `a` is strictly below `b` in windowed ordering:
/// the forward distance from `a` to `b` is in `(0, 2^31)`.
pub open spec fn seq_lt(a: u32, b: u32) -> bool {
    0 < seq_delta(a, b) < 0x8000_0000
}

/// `a` is at or below `b` in windowed ordering:
/// the forward distance from `a` to `b` is in `[0, 2^31)`.
pub open spec fn seq_le(a: u32, b: u32) -> bool {
    seq_delta(a, b) < 0x8000_0000
}

/// `probe` lies in the half-open window of length `window` starting at `base`.
pub open spec fn seq_in_window(base: u32, probe: u32, window: int) -> bool {
    seq_delta(base, probe) < window
}

/// `base` advanced by `offset`, wrapping around the sequence circle.
pub open spec fn seq_add(base: u32, offset: int) -> u32 {
    ((base + offset) % 0x1_0000_0000) as u32
}

/// A 32-bit wire sequence number.
///
/// The numeric value is public; all ordering goes through the windowed
/// comparison methods, never through raw integer comparison.
#[derive(Clone, Copy, Debug, Hash, PartialEq, Eq, Structural)]
pub struct SeqNumber(pub u32);

impl Default for SeqNumber {
    /// The zero sequence number.
    fn default() -> (r: Self)
        ensures
            r.0 == 0,
    {
        SeqNumber(0)
    }
}

impl SeqNumber {
    /// Advance by `offset`, wrapping modulo `2^32`.
    pub fn wrapping_add(self, offset: u32) -> (r: SeqNumber)
        ensures
            r.0 == seq_add(self.0, offset as int),
    {
        SeqNumber(self.0.wrapping_add(offset))
    }

    /// Advance by a byte count, wrapping modulo `2^32`.
    pub fn wrapping_add_usize(self, offset: usize) -> (r: SeqNumber)
        requires
            offset <= u32::MAX,
        ensures
            r.0 == seq_add(self.0, offset as int),
    {
        SeqNumber(self.0.wrapping_add(offset as u32))
    }

    /// Step back by `offset`, wrapping modulo `2^32`.
    pub fn wrapping_back(self, offset: u32) -> (r: SeqNumber)
        ensures
            r.0 == seq_add(self.0, -(offset as int)),
    {
        SeqNumber(self.0.wrapping_sub(offset))
    }

    /// The modular distance from `base` forward to `self`.
    pub fn wrapping_sub(self, base: SeqNumber) -> (r: u32)
        ensures
            r == seq_delta(base.0, self.0),
    {
        self.0.wrapping_sub(base.0)
    }

    /// Strictly below `other` in windowed ordering.
    pub fn windowed_lt(self, other: SeqNumber) -> (r: bool)
        ensures
            r == seq_lt(self.0, other.0),
    {
        let d = other.0.wrapping_sub(self.0);
        0 < d && d < 0x8000_0000
    }

    /// At or below `other` in windowed ordering.
    pub fn windowed_le(self, other: SeqNumber) -> (r: bool)
        ensures
            r == seq_le(self.0, other.0),
    {
        let d = other.0.wrapping_sub(self.0);
        d < 0x8000_0000
    }

    /// Whether `probe` lies in the window of length `window` starting here.
    pub fn contains_in_window(self, probe: SeqNumber, window: usize) -> (r: bool)
        ensures
            r == seq_in_window(self.0, probe.0, window as int),
    {
        let d = probe.0.wrapping_sub(self.0);
        (d as usize) < window
    }
}

/// The distance from a number to itself is zero.
pub proof fn lemma_delta_self(a: u32)
    ensures
        seq_delta(a, a) == 0,
{
}

/// Forward distances compose around the circle.
pub proof fn lemma_delta_chain(a: u32, b: u32, c: u32)
    ensures
        seq_delta(a, c) == (seq_delta(a, b) + seq_delta(b, c)) % 0x1_0000_0000,
{
    let m = 0x1_0000_0000int;
    assert(((b - a) % m + (c - b) % m) % m == ((b - a) + (c - b)) % m) by {
        vstd::arithmetic::div_mod::lemma_add_mod_noop(b - a, c - b, m);
    }
}

/// The distance to an advanced number is the advance, reduced.
pub proof fn lemma_delta_of_add(a: u32, k: int)
    requires
        0 <= k,
    ensures
        seq_delta(a, seq_add(a, k)) == k % 0x1_0000_0000,
{
    let m = 0x1_0000_0000int;
    assert(seq_add(a, k) == (a + k) % m);
    assert(((a + k) % m - a) % m == ((a + k) - a) % m) by {
        vstd::arithmetic::div_mod::lemma_sub_mod_noop(a + k, a as int, m);
        vstd::arithmetic::div_mod::lemma_small_mod(a as nat, m as nat);
    }
    assert(((a + k) - a) % m == k % m);
}

/// A distance below the ring size reduces to itself.
pub proof fn lemma_small_delta(x: int)
    requires
        0 <= x < 0x1_0000_0000,
    ensures
        x % 0x1_0000_0000 == x,
{
    vstd::arithmetic::div_mod::lemma_small_mod(x as nat, 0x1_0000_0000nat);
}

/// A forward distance of zero means the numbers are equal.
pub proof fn lemma_delta_zero_eq(a: u32, b: u32)
    requires
        seq_delta(a, b) == 0,
    ensures
        a == b,
{
    let m = 0x1_0000_0000int;
    if a != b {
        if b > a {
            vstd::arithmetic::div_mod::lemma_small_mod((b - a) as nat, m as nat);
        } else {
            let x = b - a;
            assert((x + m) % m == x % m) by {
                vstd::arithmetic::div_mod::lemma_mod_self_0(m);
                vstd::arithmetic::div_mod::lemma_add_mod_noop(x, m, m);
                vstd::arithmetic::div_mod::lemma_mod_twice(x, m);
            }
            vstd::arithmetic::div_mod::lemma_small_mod((x + m) as nat, m as nat);
        }
    }
}

/// Between distinct numbers, the two forward distances add up to the
/// full circle.
pub proof fn lemma_delta_antisym(a: u32, b: u32)
    requires
        a != b,
    ensures
        seq_delta(a, b) + seq_delta(b, a) == 0x1_0000_0000,
{
    let m = 0x1_0000_0000int;
    lemma_delta_chain(a, b, a);
    lemma_delta_self(a);
    let sum = seq_delta(a, b) + seq_delta(b, a);
    assert(sum % m == 0);
    if seq_delta(a, b) == 0 {
        lemma_delta_zero_eq(a, b);
    }
    if seq_delta(b, a) == 0 {
        lemma_delta_zero_eq(b, a);
    }
    if sum < m {
        vstd::arithmetic::div_mod::lemma_small_mod(sum as nat, m as nat);
    } else {
        assert((sum - m + m) % m == (sum - m) % m) by {
            vstd::arithmetic::div_mod::lemma_mod_self_0(m);
            vstd::arithmetic::div_mod::lemma_add_mod_noop(sum - m, m, m);
            vstd::arithmetic::div_mod::lemma_mod_twice(sum - m, m);
        }
        vstd::arithmetic::div_mod::lemma_small_mod((sum - m) as nat, m as nat);
    }
}

} // verus!
