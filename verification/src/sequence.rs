//! Wraparound-safe sequence counters used to tag outbound protocol messages
//! so that replies can be correlated with the requests that caused them.

use vstd::arithmetic::div_mod::{
    lemma_add_mod_noop_right, lemma_mod_bound, lemma_mod_multiples_vanish, lemma_mod_self_0,
    lemma_small_mod,
};
use vstd::prelude::*;

verus! {

/// An unsigned value that a [`Sequence`] counter can range over.
///
/// A counter value lives in the space `0 .. modulus()` and advances by one,
/// wrapping back to zero at the top of the space instead of overflowing.
pub trait SequenceValue: Sized + Copy {
    /// The size of the value space; a counter value is always below it.
    spec fn modulus() -> nat;

    /// The mathematical value of this counter value.
    spec fn value(self) -> nat;

    /// Every value lies below the modulus, and the space holds at least two
    /// values, so that advancing actually moves the counter.
    proof fn lemma_in_range(self)
        ensures
            self.value() < Self::modulus(),
            Self::modulus() >= 2,
    ;

    /// Adds one, wrapping to zero at the top of the value space. Never
    /// panics: the wraparound is explicit, not an overflow.
    fn wrapping_increment(self) -> (r: Self)
        ensures
            r.value() == (self.value() + 1) % Self::modulus(),
    ;
}

impl SequenceValue for u8 {
    open spec fn modulus() -> nat {
        0x100
    }

    open spec fn value(self) -> nat {
        self as nat
    }

    proof fn lemma_in_range(self) {
    }

    fn wrapping_increment(self) -> (r: Self) {
        proof {
            if self == u8::MAX {
                lemma_mod_self_0(0x100);
            } else {
                lemma_small_mod((self + 1) as nat, 0x100);
            }
        }
        if self == u8::MAX {
            0
        } else {
            self + 1
        }
    }
}

impl SequenceValue for u16 {
    open spec fn modulus() -> nat {
        0x1_0000
    }

    open spec fn value(self) -> nat {
        self as nat
    }

    proof fn lemma_in_range(self) {
    }

    fn wrapping_increment(self) -> (r: Self) {
        proof {
            if self == u16::MAX {
                lemma_mod_self_0(0x1_0000);
            } else {
                lemma_small_mod((self + 1) as nat, 0x1_0000);
            }
        }
        if self == u16::MAX {
            0
        } else {
            self + 1
        }
    }
}

impl SequenceValue for u32 {
    open spec fn modulus() -> nat {
        0x1_0000_0000
    }

    open spec fn value(self) -> nat {
        self as nat
    }

    proof fn lemma_in_range(self) {
    }

    fn wrapping_increment(self) -> (r: Self) {
        proof {
            if self == u32::MAX {
                lemma_mod_self_0(0x1_0000_0000);
            } else {
                lemma_small_mod((self + 1) as nat, 0x1_0000_0000);
            }
        }
        if self == u32::MAX {
            0
        } else {
            self + 1
        }
    }
}

impl SequenceValue for u64 {
    open spec fn modulus() -> nat {
        0x1_0000_0000_0000_0000
    }

    open spec fn value(self) -> nat {
        self as nat
    }

    proof fn lemma_in_range(self) {
    }

    fn wrapping_increment(self) -> (r: Self) {
        proof {
            if self == u64::MAX {
                lemma_mod_self_0(0x1_0000_0000_0000_0000);
            } else {
                lemma_small_mod((self + 1) as nat, 0x1_0000_0000_0000_0000);
            }
        }
        if self == u64::MAX {
            0
        } else {
            self + 1
        }
    }
}

/// A monotonically advancing, wraparound-safe counter. `advance` hands out
/// the current value and steps the internal state by one, modulo the size of
/// the value space, so identifiers repeat only after a full wraparound.
#[derive(Debug, Clone, Copy, Hash, PartialEq, Eq, PartialOrd, Ord, Default)]
pub struct Sequence<T>(T);

impl<T: SequenceValue> Sequence<T> {
    /// The value the next call of `advance` will return.
    pub closed spec fn current(self) -> nat {
        self.0.value()
    }

    pub fn new(value: T) -> (r: Self)
        ensures
            r.current() == value.value(),
    {
        Sequence(value)
    }

    /// Returns the current value and replaces the internal state with its
    /// wrapping successor. No error conditions; never panics.
    pub fn advance(&mut self) -> (r: T)
        ensures
            r.value() == old(self).current(),
            final(self).current() == (old(self).current() + 1) % T::modulus(),
    {
        let next = self.0.wrapping_increment();
        let prev = self.0;
        self.0 = next;
        prev
    }
}

/// The counter value reached after `n` calls of `advance` on a counter
/// holding `v`, in a value space of size `m`; each call steps the state
/// exactly as the `ensures` of [`Sequence::advance`] describes. The value
/// *returned* by the `n + 1`-th call is therefore `advanced_by(v, m, n)`.
pub open spec fn advanced_by(v: nat, m: nat, n: nat) -> nat
    decreases n,
{
    if n == 0 {
        v
    } else {
        advanced_by((v + 1) % m, m, (n - 1) as nat)
    }
}

/// Iterated advancing is addition modulo the size of the value space.
pub proof fn lemma_advanced_by_is_mod(v: nat, m: nat, n: nat)
    requires
        v < m,
        m >= 2,
    ensures
        advanced_by(v, m, n) == (v + n) % m,
    decreases n,
{
    if n == 0 {
        lemma_small_mod(v, m);
    } else {
        let v1 = (v + 1) % m;
        lemma_mod_bound((v + 1) as int, m as int);
        lemma_advanced_by_is_mod(v1, m, (n - 1) as nat);
        lemma_add_mod_noop_right((n - 1) as int, (v + 1) as int, m as int);
    }
}

/// Law: a counter wraps around cleanly. After `m` calls of `advance` — one
/// for every value in a space of size `m` — the counter holds its starting
/// value again, so the `m + 1`-th call returns exactly what the first call
/// returned, and no call in between can overflow or panic.
pub proof fn lemma_sequence_wraparound(v: nat, m: nat)
    requires
        v < m,
        m >= 2,
    ensures
        advanced_by(v, m, m) == advanced_by(v, m, 0),
        advanced_by(v, m, 0) == v,
{
    lemma_advanced_by_is_mod(v, m, m);
    lemma_mod_multiples_vanish(1, v as int, m as int);
    lemma_small_mod(v, m);
}

} // verus!
