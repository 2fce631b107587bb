use vstd::prelude::*;

verus! {

/// Bits that a version 4 (random) UUID has fixed: the version nibble and the
/// two top bits of the variant field, read as a big-endian 128-bit value.
pub open spec fn v4_fixed_mask() -> u128 {
    0x0000_0000_0000_F000_C000_0000_0000_0000u128
}

/// Values of the fixed bits: version 4, variant RFC 4122 (`0b10`).
pub open spec fn v4_fixed_bits() -> u128 {
    0x0000_0000_0000_4000_8000_0000_0000_0000u128
}

/// A 128-bit value laid out as a version 4 UUID.
pub open spec fn is_v4_layout(v: u128) -> bool {
    v & v4_fixed_mask() == v4_fixed_bits()
}

/// Relies on `uuid::Uuid::new_v4` and `Uuid::as_u128`: a random UUID whose
/// version and variant bits are set for version 4; its other 122 bits are
/// random, and nothing is promised of them.
#[verifier::external_body]
fn random_uuid_v4() -> (r: u128)
    ensures
        is_v4_layout(r),
{
    uuid::Uuid::new_v4().as_u128()
}

/// Relies on `rand::thread_rng` and `Rng::fill`: eight bytes from the
/// thread-local generator; nothing is promised of their values.
#[verifier::external_body]
fn random_bytes8() -> (r: [u8; 8]) {
    let mut id = [0u8; 8];
    rand::Rng::fill(&mut rand::thread_rng(), &mut id);
    id
}

/// Identity shared by every span of one trace: a 128-bit value.
#[derive(Clone, Copy, Debug, PartialEq, Eq, Hash, Structural)]
pub struct TraceId(pub u128);

impl TraceId {
    /// Mints a fresh trace identifier laid out as a random (version 4) UUID.
    pub fn new() -> (r: TraceId)
        ensures
            is_v4_layout(r.0),
    {
        TraceId(random_uuid_v4())
    }
}

/// Identity of one span within a trace: 64 bits, kept as eight bytes.
#[derive(Clone, Copy, Debug, Eq, Hash)]
pub struct SpanId(pub [u8; 8]);

impl PartialEq for SpanId {
    fn eq(&self, other: &SpanId) -> (r: bool) {
        self.same_as(other)
    }
}

impl vstd::std_specs::cmp::PartialEqSpecImpl for SpanId {
    open spec fn obeys_eq_spec() -> bool {
        true
    }

    open spec fn eq_spec(&self, other: &SpanId) -> bool {
        *self == *other
    }
}

impl SpanId {
    /// Mints a fresh span identifier from 64 random bits.
    pub fn new() -> (r: SpanId) {
        SpanId(random_bytes8())
    }

    /// Whether two identifiers hold the same bytes.
    pub fn same_as(&self, other: &SpanId) -> (r: bool)
        ensures
            r == (*self == *other),
    {
        let mut i: usize = 0;
        while i < 8
            invariant
                0 <= i <= 8,
                forall|j: int| 0 <= j < i ==> self.0[j] == other.0[j],
            decreases 8 - i,
        {
            if self.0[i] != other.0[i] {
                return false;
            }
            i = i + 1;
        }
        proof {
            vstd::array::axiom_array_ext_equal(self.0, other.0);
        }
        assert(self.0 =~= other.0);
        true
    }

    /// What `avoiding` returns.
    pub open spec fn avoiding_spec(draw: SpanId, taken: SpanId) -> SpanId {
        if draw != taken {
            draw
        } else {
            SpanId(vstd::array::spec_array_update(draw.0, 0, draw.0[0] ^ 1u8))
        }
    }

    /// `draw` itself when it differs from `taken`; otherwise `draw` with the
    /// lowest bit of its first byte flipped. Either way the result differs from
    /// `taken`.
    pub fn avoiding(draw: SpanId, taken: SpanId) -> (r: SpanId)
        ensures
            r != taken,
            r == SpanId::avoiding_spec(draw, taken),
    {
        if draw == taken {
            let b = draw.0;
            let low: u8 = b[0];
            let first: u8 = low ^ 1u8;
            assert(first != low) by (bit_vector)
                requires
                    first == low ^ 1u8,
            ;
            let r = SpanId([first, b[1], b[2], b[3], b[4], b[5], b[6], b[7]]);
            let ghost flipped = vstd::array::spec_array_update(draw.0, 0, draw.0[0] ^ 1u8);
            proof {
                vstd::array::axiom_spec_array_update(draw.0, 0, draw.0[0] ^ 1u8);
                vstd::array::axiom_array_ext_equal(r.0, flipped);
            }
            assert(r.0@ =~= flipped@);
            assert(r.0 =~= flipped);
            assert(r.0@[0] != taken.0@[0]);
            r
        } else {
            draw
        }
    }

    /// Mints a fresh span identifier that differs from `taken`.
    pub fn new_other_than(taken: SpanId) -> (r: SpanId)
        ensures
            r != taken,
    {
        SpanId::avoiding(SpanId::new(), taken)
    }
}

} // verus!
