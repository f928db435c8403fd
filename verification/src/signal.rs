//! Signals: the observable boolean conditions of a kernel object, as one bitmask.

use vstd::prelude::*;

verus! {

/// Signals that waitable kernel objects expose to applications.
///
/// A value is a set of named conditions, one bit each. It is never updated in
/// part: a transition replaces the whole mask.
#[derive(Clone, Copy, Debug, PartialEq, Eq, Structural, Hash)]
pub struct Signal {
    pub bits: u32,
}

impl Signal {
    /// Whether the two masks share a bit.
    pub open spec fn spec_intersects(self, other: Signal) -> bool {
        self.bits & other.bits != 0
    }

    /// Whether no bit is set.
    pub open spec fn spec_is_empty(self) -> bool {
        self.bits == 0
    }

    /// Whether every bit of `other` is set in `self`.
    pub open spec fn spec_contains(self, other: Signal) -> bool {
        self.bits & other.bits == other.bits
    }

    /// The bits set in either mask.
    pub open spec fn spec_union(self, other: Signal) -> Signal {
        Signal { bits: self.bits | other.bits }
    }

    /// The bits set in both masks.
    pub open spec fn spec_intersection(self, other: Signal) -> Signal {
        Signal { bits: self.bits & other.bits }
    }

    /// The bits of `self` that are not set in `other`.
    pub open spec fn spec_difference(self, other: Signal) -> Signal {
        Signal { bits: self.bits & !other.bits }
    }

    /// The mask that a transition leaves: first the bits of `clear` are
    /// taken away, then the bits of `set` are added.
    pub open spec fn changed(self, clear: Signal, set: Signal) -> Signal {
        Signal { bits: (self.bits & !clear.bits) | set.bits }
    }

    /// The mask with no bit set.
    pub fn empty() -> (s: Signal)
        ensures
            s.bits == 0,
    {
        Signal { bits: 0 }
    }

    /// Every bit, kernel and user.
    pub fn all() -> (s: Signal)
        ensures
            s.bits == 0xffff_ffff,
    {
        Signal { bits: 0xffff_ffff }
    }

    pub fn readable() -> (s: Signal)
        ensures
            s.bits == 0x0000_0001,
    {
        Signal { bits: 0x0000_0001 }
    }

    pub fn writable() -> (s: Signal)
        ensures
            s.bits == 0x0000_0002,
    {
        Signal { bits: 0x0000_0002 }
    }

    pub fn peer_closed() -> (s: Signal)
        ensures
            s.bits == 0x0000_0004,
    {
        Signal { bits: 0x0000_0004 }
    }

    pub fn signaled() -> (s: Signal)
        ensures
            s.bits == 0x0000_0008,
    {
        Signal { bits: 0x0000_0008 }
    }

    pub fn handle_closed() -> (s: Signal)
        ensures
            s.bits == 0x0080_0000,
    {
        Signal { bits: 0x0080_0000 }
    }

    /// The bits reserved for the kernel.
    pub fn kernel_all() -> (s: Signal)
        ensures
            s.bits == 0x00ff_ffff,
    {
        Signal { bits: 0x00ff_ffff }
    }

    /// The bits that user code may assert and deassert.
    pub fn user_all() -> (s: Signal)
        ensures
            s.bits == 0xff00_0000,
    {
        Signal { bits: 0xff00_0000 }
    }

    /// The user bit of the given number; numbers above 7 give the empty mask.
    pub fn user_signal(index: u8) -> (s: Signal)
        ensures
            index < 8 ==> s.bits == 0x0100_0000u32 << index,
            index >= 8 ==> s.bits == 0,
    {
        if index < 8 {
            let bits: u32 = 0x0100_0000u32 << index;
            Signal { bits }
        } else {
            Signal { bits: 0 }
        }
    }

    pub fn user_signal_0() -> (s: Signal)
        ensures
            s.bits == 0x0100_0000,
    {
        Signal { bits: 0x0100_0000 }
    }

    pub fn user_signal_1() -> (s: Signal)
        ensures
            s.bits == 0x0200_0000,
    {
        Signal { bits: 0x0200_0000 }
    }

    pub fn user_signal_2() -> (s: Signal)
        ensures
            s.bits == 0x0400_0000,
    {
        Signal { bits: 0x0400_0000 }
    }

    pub fn user_signal_3() -> (s: Signal)
        ensures
            s.bits == 0x0800_0000,
    {
        Signal { bits: 0x0800_0000 }
    }

    pub fn user_signal_4() -> (s: Signal)
        ensures
            s.bits == 0x1000_0000,
    {
        Signal { bits: 0x1000_0000 }
    }

    pub fn user_signal_5() -> (s: Signal)
        ensures
            s.bits == 0x2000_0000,
    {
        Signal { bits: 0x2000_0000 }
    }

    pub fn user_signal_6() -> (s: Signal)
        ensures
            s.bits == 0x4000_0000,
    {
        Signal { bits: 0x4000_0000 }
    }

    pub fn user_signal_7() -> (s: Signal)
        ensures
            s.bits == 0x8000_0000,
    {
        Signal { bits: 0x8000_0000 }
    }

    /// The mask with exactly the given bits. Every bit has a meaning, so none
    /// is dropped.
    pub fn from_bits_truncate(bits: u32) -> (s: Signal)
        ensures
            s.bits == bits,
    {
        Signal { bits }
    }

    /// The raw bits.
    pub fn bits(self) -> (bits: u32)
        ensures
            bits == self.bits,
    {
        self.bits
    }

    #[verifier::when_used_as_spec(spec_is_empty)]
    pub fn is_empty(self) -> (b: bool)
        ensures
            b == self.spec_is_empty(),
    {
        self.bits == 0
    }

    #[verifier::when_used_as_spec(spec_intersects)]
    pub fn intersects(self, other: Signal) -> (b: bool)
        ensures
            b == self.spec_intersects(other),
    {
        self.bits & other.bits != 0
    }

    #[verifier::when_used_as_spec(spec_contains)]
    pub fn contains(self, other: Signal) -> (b: bool)
        ensures
            b == self.spec_contains(other),
    {
        self.bits & other.bits == other.bits
    }

    #[verifier::when_used_as_spec(spec_union)]
    pub fn union(self, other: Signal) -> (s: Signal)
        ensures
            s == self.spec_union(other),
    {
        Signal { bits: self.bits | other.bits }
    }

    #[verifier::when_used_as_spec(spec_intersection)]
    pub fn intersection(self, other: Signal) -> (s: Signal)
        ensures
            s == self.spec_intersection(other),
    {
        Signal { bits: self.bits & other.bits }
    }

    #[verifier::when_used_as_spec(spec_difference)]
    pub fn difference(self, other: Signal) -> (s: Signal)
        ensures
            s == self.spec_difference(other),
    {
        Signal { bits: self.bits & !other.bits }
    }

    /// Adds the bits of `other`.
    pub fn insert(&mut self, other: Signal)
        ensures
            *final(self) == old(self).spec_union(other),
    {
        self.bits = self.bits | other.bits;
    }

    /// Takes the bits of `other` away.
    pub fn remove(&mut self, other: Signal)
        ensures
            *final(self) == old(self).spec_difference(other),
    {
        self.bits = self.bits & !other.bits;
    }
}

impl Default for Signal {
    fn default() -> (s: Signal)
        ensures
            s.bits == 0,
    {
        Signal { bits: 0 }
    }
}

impl core::ops::BitOr for Signal {
    type Output = Signal;

    fn bitor(self, other: Signal) -> (s: Signal) {
        Signal { bits: self.bits | other.bits }
    }
}

impl vstd::std_specs::ops::BitOrSpecImpl for Signal {
    open spec fn obeys_bitor_spec() -> bool {
        true
    }

    open spec fn bitor_req(self, other: Signal) -> bool {
        true
    }

    open spec fn bitor_spec(self, other: Signal) -> Signal {
        self.spec_union(other)
    }
}

impl core::ops::BitAnd for Signal {
    type Output = Signal;

    fn bitand(self, other: Signal) -> (s: Signal) {
        Signal { bits: self.bits & other.bits }
    }
}

impl vstd::std_specs::ops::BitAndSpecImpl for Signal {
    open spec fn obeys_bitand_spec() -> bool {
        true
    }

    open spec fn bitand_req(self, other: Signal) -> bool {
        true
    }

    open spec fn bitand_spec(self, other: Signal) -> Signal {
        self.spec_intersection(other)
    }
}

/// Applying one transition twice gives what applying it once gives.
pub proof fn lemma_change_idempotent(s: Signal, clear: Signal, set: Signal)
    ensures
        s.changed(clear, set).changed(clear, set) == s.changed(clear, set),
{
    let b = s.bits;
    let c = clear.bits;
    let t = set.bits;
    assert((((b & !c) | t) & !c) | t == (b & !c) | t) by (bit_vector);
}

/// Asserting bits is a transition that clears nothing, and afterwards every
/// asserted bit is set.
pub proof fn lemma_set_contains(s: Signal, set: Signal)
    ensures
        s.changed(Signal { bits: 0 }, set) == s.spec_union(set),
        s.spec_union(set).spec_contains(set),
{
    let b = s.bits;
    let t = set.bits;
    assert((b & !0u32) | t == b | t) by (bit_vector);
    assert((b | t) & t == t) by (bit_vector);
}

/// Deasserting bits is a transition that sets nothing, and afterwards no
/// deasserted bit is set.
pub proof fn lemma_clear_disjoint(s: Signal, clear: Signal)
    ensures
        s.changed(clear, Signal { bits: 0 }) == s.spec_difference(clear),
        !s.spec_difference(clear).spec_intersects(clear),
{
    let b = s.bits;
    let c = clear.bits;
    assert((b & !c) | 0u32 == b & !c) by (bit_vector);
    assert((b & !c) & c == 0u32) by (bit_vector);
}

/// A non-empty mask that is asserted is met by the new value.
pub proof fn lemma_set_intersects(s: Signal, set: Signal)
    requires
        !set.spec_is_empty(),
    ensures
        s.spec_union(set).spec_intersects(set),
{
    let b = s.bits;
    let t = set.bits;
    assert((b | t) & t != 0u32) by (bit_vector)
        requires
            t != 0u32,
    ;
}

} // verus!
