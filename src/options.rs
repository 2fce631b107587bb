use vstd::prelude::*;
use fixedbitset::FixedBitSet;

verus! {

#[verifier::external_type_specification]
#[verifier::external_body]
pub struct ExFixedBitSet(FixedBitSet);

/// The indices of the bits that are set in a `FixedBitSet`.
pub uninterp spec fn bits_of(b: FixedBitSet) -> Set<nat>;

/// The number of bits a `FixedBitSet` was made with (its `len`).
pub uninterp spec fn capacity_of(b: FixedBitSet) -> nat;

/// Relies on `FixedBitSet::with_capacity`: a set of `bits` bits, all clear.
#[verifier::external_body]
fn bitset_with_capacity(bits: usize) -> (r: FixedBitSet)
    ensures
        bits_of(r) == Set::<nat>::empty(),
        capacity_of(r) == bits,
{
    FixedBitSet::with_capacity(bits)
}

/// Relies on `FixedBitSet::contains`: whether `bit` is set; `false` for a bit
/// beyond the capacity, which can never be set.
#[verifier::external_body]
fn bitset_contains(b: &FixedBitSet, bit: usize) -> (r: bool)
    ensures
        r == bits_of(*b).contains(bit as nat),
{
    b.contains(bit)
}

/// Relies on `FixedBitSet::set`: sets or clears one bit in bounds (it panics
/// out of bounds) and leaves the others and the capacity as they were.
#[verifier::external_body]
fn bitset_set(b: &mut FixedBitSet, bit: usize, enabled: bool)
    requires
        (bit as nat) < capacity_of(*old(b)),
    ensures
        capacity_of(*final(b)) == capacity_of(*old(b)),
        bits_of(*final(b)) == (if enabled {
            bits_of(*old(b)).insert(bit as nat)
        } else {
            bits_of(*old(b)).remove(bit as nat)
        }),
    no_unwind
{
    b.set(bit, enabled)
}

/// Relies on `FixedBitSet`'s `Clone`: a copy with the same bits and capacity.
#[verifier::external_body]
fn bitset_clone(b: &FixedBitSet) -> (r: FixedBitSet)
    ensures
        bits_of(r) == bits_of(*b),
        capacity_of(r) == capacity_of(*b),
{
    b.clone()
}

/// Width of the flags register, in bits.
pub const OPTION_BITS: usize = 8;

/// Index of the "sampled" flag.
pub const SAMPLING_BIT: usize = 1;

/// The propagated flags register: eight bits, of which bit 1 means "sampled".
/// Every bit is kept through every copy, whether or not it has a meaning here.
#[derive(Debug)]
pub struct TraceOptions(FixedBitSet);

impl TraceOptions {
    /// The register is eight bits wide and only bits below eight are set.
    #[verifier::type_invariant]
    spec fn inv(self) -> bool {
        &&& capacity_of(self.0) == OPTION_BITS
        &&& forall|i: nat| bits_of(self.0).contains(i) ==> i < OPTION_BITS
    }

    /// The indices of the flags that are set.
    pub closed spec fn view(&self) -> Set<nat> {
        bits_of(self.0)
    }

    /// A register with every flag clear.
    pub fn new() -> (r: TraceOptions)
        ensures
            r@ == Set::<nat>::empty(),
    {
        TraceOptions(bitset_with_capacity(OPTION_BITS))
    }

    /// Whether flag `bit` is set; `false` for an index beyond the register.
    pub fn is_set(&self, bit: usize) -> (r: bool)
        ensures
            r == self@.contains(bit as nat),
    {
        bitset_contains(&self.0, bit)
    }

    /// Whether the "sampled" flag (bit 1) is set.
    pub fn is_sampling(&self) -> (r: bool)
        ensures
            r == self@.contains(SAMPLING_BIT as nat),
    {
        self.is_set(SAMPLING_BIT)
    }

    /// Sets or clears flag `bit`, leaving every other flag as it was.
    pub fn set(&mut self, bit: usize, enabled: bool)
        requires
            bit < OPTION_BITS,
        ensures
            final(self)@ == (if enabled {
                old(self)@.insert(bit as nat)
            } else {
                old(self)@.remove(bit as nat)
            }),
    {
        proof {
            use_type_invariant(&*self);
        }
        bitset_set(&mut self.0, bit, enabled);
    }

    /// Sets or clears the "sampled" flag, leaving every other flag as it was.
    pub fn set_sampling(&mut self, enabled: bool)
        ensures
            final(self)@ == (if enabled {
                old(self)@.insert(SAMPLING_BIT as nat)
            } else {
                old(self)@.remove(SAMPLING_BIT as nat)
            }),
    {
        self.set(SAMPLING_BIT, enabled)
    }

    /// A copy holding exactly the same flags.
    pub fn copy(&self) -> (r: TraceOptions)
        ensures
            r@ == self@,
    {
        proof {
            use_type_invariant(self);
        }
        TraceOptions(bitset_clone(&self.0))
    }
}

/// A fresh register is not sampling; setting the sampling flag on any register
/// makes it sampling and leaves every other flag as it was.
pub proof fn lemma_sampling_flag(fresh: TraceOptions, before: TraceOptions, after: TraceOptions)
    requires
        fresh@ == Set::<nat>::empty(),
        after@ == before@.insert(SAMPLING_BIT as nat),
    ensures
        !fresh@.contains(SAMPLING_BIT as nat),
        after@.contains(SAMPLING_BIT as nat),
        forall|i: nat| i != SAMPLING_BIT ==> (#[trigger] after@.contains(i) == before@.contains(i)),
{
}

} // verus!
