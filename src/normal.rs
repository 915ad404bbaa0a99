use vstd::prelude::*;

verus! {

/// Bit pattern of the `f32` value `1.0`.
pub const MAX_BITS: u32 = 0x3F80_0000;

/// Bit pattern of the `f32` value `0.5`.
pub const CENTER_BITS: u32 = 0x3F00_0000;

/// Bit pattern of the `f32` value `0.499`, the lower edge of the band that
/// counts as "at the center" when no explicit center is given.
pub const NEAR_CENTER_LOW_BITS: u32 = 0x3EFF_7CEE;

/// Bit pattern of the `f32` value `0.501`, the upper edge of that band.
pub const NEAR_CENTER_HIGH_BITS: u32 = 0x3F00_4189;

/// A normalized parameter value between `0.0` and `1.0` inclusive.
///
/// The value is held as the bit pattern of its `f32`. For finite floats
/// that are not negative, the order of the bit patterns read as unsigned
/// integers is the numeric order, so comparisons of normals are
/// comparisons of their patterns. The view of a normal is its pattern.
#[derive(Clone, Copy, Debug, PartialEq, Eq, Structural)]
pub struct Normal {
    bits: u32,
}

impl View for Normal {
    type V = nat;

    closed spec fn view(&self) -> nat {
        self.bits as nat
    }
}

impl Normal {
    #[verifier::type_invariant]
    spec fn inv(self) -> bool {
        self.bits <= MAX_BITS
    }

    /// Builds a normal from the bit pattern of an `f32`; `None` when the
    /// pattern does not stand for a value between `+0.0` and `1.0`.
    pub fn from_bits(bits: u32) -> (r: Option<Normal>)
        ensures
            bits <= MAX_BITS <==> r is Some,
            r matches Some(n) ==> n@ == bits,
    {
        if bits <= MAX_BITS {
            Some(Normal { bits })
        } else {
            None
        }
    }

    /// The bit pattern of this normal's `f32` value.
    pub fn to_bits(&self) -> (r: u32)
        ensures
            r == self@,
            r <= MAX_BITS,
    {
        proof {
            use_type_invariant(self);
        }
        self.bits
    }

    /// The normal `0.0`.
    pub fn min() -> (r: Normal)
        ensures
            r@ == 0,
    {
        Normal { bits: 0 }
    }

    /// The normal `0.5`.
    pub fn center() -> (r: Normal)
        ensures
            r@ == CENTER_BITS,
    {
        Normal { bits: CENTER_BITS }
    }

    /// The normal `1.0`.
    pub fn max() -> (r: Normal)
        ensures
            r@ == MAX_BITS,
    {
        Normal { bits: MAX_BITS }
    }

    /// Whether both normals hold the same value.
    pub fn same(&self, other: &Normal) -> (r: bool)
        ensures
            r == (self@ == other@),
    {
        self.bits == other.bits
    }

    /// Whether this normal is smaller than `other`.
    pub fn below(&self, other: &Normal) -> (r: bool)
        ensures
            r == (self@ < other@),
    {
        self.bits < other.bits
    }
}

} // verus!
