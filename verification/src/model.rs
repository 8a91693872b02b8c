//! The declaration model: a representation type descriptor, discriminant
//! values wide enough for every representation, members and the whole
//! enumeration declaration.

use vstd::prelude::*;

verus! {

/// Whether a representation type is signed or unsigned.
#[derive(Clone, Copy, PartialEq, Eq, Structural, Debug)]
pub enum Signedness {
    Signed,
    Unsigned,
}

/// The width of a representation type, in bits.
#[derive(Clone, Copy, PartialEq, Eq, Structural, Debug)]
pub enum ReprWidth {
    W8,
    W16,
    W32,
    W64,
    W128,
}

/// A primitive fixed-width integer type: the representation an enumeration
/// declares for its discriminants.
#[derive(Clone, Copy, PartialEq, Eq, Structural, Debug)]
pub struct ReprType {
    pub width: ReprWidth,
    pub sign: Signedness,
}

impl ReprType {
    /// The smallest integer representable in this type.
    pub open spec fn min_int(self) -> int {
        match self.sign {
            Signedness::Unsigned => 0,
            Signedness::Signed => match self.width {
                ReprWidth::W8 => -128,
                ReprWidth::W16 => -32768,
                ReprWidth::W32 => -2147483648,
                ReprWidth::W64 => -9223372036854775808,
                ReprWidth::W128 => -170141183460469231731687303715884105728,
            },
        }
    }

    /// The largest integer representable in this type.
    pub open spec fn max_int(self) -> int {
        match self.sign {
            Signedness::Unsigned => match self.width {
                ReprWidth::W8 => 255,
                ReprWidth::W16 => 65535,
                ReprWidth::W32 => 4294967295,
                ReprWidth::W64 => 18446744073709551615,
                ReprWidth::W128 => 340282366920938463463374607431768211455,
            },
            Signedness::Signed => match self.width {
                ReprWidth::W8 => 127,
                ReprWidth::W16 => 32767,
                ReprWidth::W32 => 2147483647,
                ReprWidth::W64 => 9223372036854775807,
                ReprWidth::W128 => 170141183460469231731687303715884105727,
            },
        }
    }
}

/// A discriminant value. The magnitude is kept in a `u128`, so every value of
/// every representation type, from the most negative 128-bit signed integer to
/// the largest 128-bit unsigned one, has exactly one canonical `Disc`.
#[derive(Clone, Copy, PartialEq, Eq, Structural, Debug)]
pub enum Disc {
    /// A strictly negative value, held as its magnitude.
    Neg(u128),
    /// A value that is zero or positive.
    NonNeg(u128),
}

impl Disc {
    /// The mathematical value of this discriminant.
    pub open spec fn as_int(self) -> int {
        match self {
            Disc::Neg(m) => -(m as int),
            Disc::NonNeg(v) => v as int,
        }
    }

    /// Zero is always written `NonNeg(0)`, so each value has one spelling.
    pub open spec fn canonical(self) -> bool {
        self matches Disc::Neg(m) ==> m >= 1
    }

    /// The discriminant is canonical and representable in `r`.
    pub open spec fn fits(self, r: ReprType) -> bool {
        &&& self.canonical()
        &&& r.min_int() <= self.as_int() <= r.max_int()
    }
}

/// One declared member of an enumeration: a symbolic name bound to a
/// discriminant.
#[derive(Clone, PartialEq, Eq, Debug)]
pub struct Member {
    pub name: String,
    pub disc: Disc,
}

/// A validated enumeration declaration: its name, its representation type and
/// its members in declaration order.
#[derive(Clone, PartialEq, Eq, Debug)]
pub struct EnumModel {
    pub name: String,
    pub repr: ReprType,
    pub members: Vec<Member>,
}

impl EnumModel {
    /// Well-formedness: at least one member, and every discriminant fits the
    /// declared representation type.
    pub open spec fn wf(self) -> bool {
        &&& self.members@.len() >= 1
        &&& forall|i: int|
            0 <= i < self.members@.len() ==> (#[trigger] self.members@[i]).disc.fits(self.repr)
    }
}

} // verus!
