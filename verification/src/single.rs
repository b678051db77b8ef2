//! Single-precision numbers, held by their IEEE 754 bit pattern.
//!
//! The pad decides by comparing coordinates and fader levels; how those are
//! added, scaled or bent into a curve is the business of whoever measures them.
//! A [`Single`] therefore offers exactly the operations that need no rounding:
//! ordering, equality, sign and clamping.
use vstd::prelude::*;

verus! {

/// The weight of the sign bit.
pub const SIGN_BIT: u32 = 0x8000_0000;

/// The magnitude of an infinity; anything above it is not a number.
pub const INFINITE: u32 = 0x7f80_0000;

/// The pattern of 0.0.
pub const ZERO: u32 = 0;

/// The pattern of 0.5.
pub const HALF: u32 = 0x3f00_0000;

/// The pattern of 1.0.
pub const ONE: u32 = 0x3f80_0000;

/// The pattern of -1.0.
pub const MINUS_ONE: u32 = 0xbf80_0000;

/// A single-precision number.
#[derive(Debug, Clone, Copy)]
pub struct Single {
    pub bits: u32,
}

impl Single {
    /// Whether the sign bit is set.
    pub open spec fn signed(self) -> bool {
        self.bits >= SIGN_BIT
    }

    /// The pattern without its sign bit. Among numbers, magnitudes are ordered
    /// as the absolute values they stand for.
    pub open spec fn magnitude(self) -> int {
        if self.signed() {
            self.bits - SIGN_BIT
        } else {
            self.bits as int
        }
    }

    /// Whether the pattern stands for no number at all.
    pub open spec fn nan(self) -> bool {
        self.magnitude() > INFINITE
    }

    /// The place of a number in the order of numbers; both zeros share place 0.
    pub open spec fn rank(self) -> int {
        if self.signed() {
            -self.magnitude()
        } else {
            self.magnitude()
        }
    }

    /// `self < other`, which no NaN takes part in.
    pub open spec fn below(self, other: Single) -> bool {
        !self.nan() && !other.nan() && self.rank() < other.rank()
    }

    /// `self <= other`, which no NaN takes part in.
    pub open spec fn at_most(self, other: Single) -> bool {
        !self.nan() && !other.nan() && self.rank() <= other.rank()
    }

    /// `self == other` as numbers, which no NaN takes part in.
    pub open spec fn equals(self, other: Single) -> bool {
        !self.nan() && !other.nan() && self.rank() == other.rank()
    }

    /// The number with the opposite sign.
    pub open spec fn negated(self) -> Single {
        if self.signed() {
            Single { bits: (self.bits - SIGN_BIT) as u32 }
        } else {
            Single { bits: (self.bits + SIGN_BIT) as u32 }
        }
    }

    /// The number without its sign.
    pub open spec fn absolute(self) -> Single {
        Single { bits: self.magnitude() as u32 }
    }

    /// The number brought into -1.0 to 1.0; a NaN stays what it is.
    pub open spec fn clamped(self) -> Single {
        if self.below(Single { bits: MINUS_ONE }) {
            Single { bits: MINUS_ONE }
        } else if (Single { bits: ONE }).below(self) {
            Single { bits: ONE }
        } else {
            self
        }
    }

    /// Whether the number lies in -1.0 to 1.0.
    pub open spec fn in_unit(self) -> bool {
        (Single { bits: MINUS_ONE }).at_most(self) && self.at_most(Single { bits: ONE })
    }

    /// The number with this bit pattern.
    pub fn from_bits(bits: u32) -> (r: Single)
        ensures
            r.bits == bits,
    {
        Single { bits }
    }

    /// The bit pattern of the number.
    pub fn to_bits(self) -> (r: u32)
        ensures
            r == self.bits,
    {
        self.bits
    }

    fn mag(self) -> (r: u32)
        ensures
            r == self.magnitude(),
    {
        if self.bits >= SIGN_BIT {
            self.bits - SIGN_BIT
        } else {
            self.bits
        }
    }

    /// Whether the pattern stands for no number at all.
    pub fn is_nan(self) -> (r: bool)
        ensures
            r == self.nan(),
    {
        self.mag() > INFINITE
    }

    /// `self < other`.
    pub fn lt(self, other: Single) -> (r: bool)
        ensures
            r == self.below(other),
    {
        if self.is_nan() || other.is_nan() {
            return false;
        }
        if self.bits >= SIGN_BIT {
            if other.bits >= SIGN_BIT {
                self.mag() > other.mag()
            } else {
                self.mag() > 0 || other.mag() > 0
            }
        } else {
            other.bits < SIGN_BIT && self.mag() < other.mag()
        }
    }

    /// `self <= other`.
    pub fn le(self, other: Single) -> (r: bool)
        ensures
            r == self.at_most(other),
    {
        !self.is_nan() && !other.is_nan() && !other.lt(self)
    }

    /// `self > other`.
    pub fn gt(self, other: Single) -> (r: bool)
        ensures
            r == other.below(self),
    {
        other.lt(self)
    }

    /// `self >= other`.
    pub fn ge(self, other: Single) -> (r: bool)
        ensures
            r == other.at_most(self),
    {
        other.le(self)
    }

    /// `self == other`.
    pub fn same(self, other: Single) -> (r: bool)
        ensures
            r == self.equals(other),
    {
        self.le(other) && other.le(self)
    }

    /// The number with the opposite sign.
    pub fn neg(self) -> (r: Single)
        ensures
            r == self.negated(),
    {
        if self.bits >= SIGN_BIT {
            Single { bits: self.bits - SIGN_BIT }
        } else {
            Single { bits: self.bits + SIGN_BIT }
        }
    }

    /// The number without its sign.
    pub fn abs(self) -> (r: Single)
        ensures
            r == self.absolute(),
    {
        Single { bits: self.mag() }
    }

    /// The number brought into -1.0 to 1.0.
    pub fn clamp_unit(self) -> (r: Single)
        ensures
            r == self.clamped(),
    {
        if self.lt(Single { bits: MINUS_ONE }) {
            Single { bits: MINUS_ONE }
        } else if self.gt(Single { bits: ONE }) {
            Single { bits: ONE }
        } else {
            self
        }
    }
}

impl PartialEq for Single {
    fn eq(&self, other: &Single) -> (r: bool) {
        self.same(*other)
    }
}

impl vstd::std_specs::cmp::PartialEqSpecImpl for Single {
    open spec fn obeys_eq_spec() -> bool {
        true
    }

    open spec fn eq_spec(&self, other: &Single) -> bool {
        self.equals(*other)
    }
}

/// Clamping always lands in -1.0 to 1.0, unless there was no number to clamp,
/// and leaves alone what was there already.
pub proof fn clamping_lands_in_unit(v: Single)
    ensures
        !v.nan() ==> v.clamped().in_unit(),
        v.nan() ==> v.clamped() == v,
        v.in_unit() ==> v.clamped() == v,
{
}

/// Numbers without NaN are in one line: exactly one of less, equal and greater
/// holds of any two.
pub proof fn numbers_are_in_one_line(a: Single, b: Single)
    requires
        !a.nan(),
        !b.nan(),
    ensures
        a.below(b) ==> !a.equals(b) && !b.below(a),
        a.equals(b) ==> !b.below(a),
        a.below(b) || a.equals(b) || b.below(a),
{
}

/// Among patterns, positive numbers are in the order of their patterns, negative ones in
/// the reverse order, every negative number stands before every positive one, both zeros
/// are equal, and what lies past an infinity takes part in no comparison.
pub proof fn patterns_order_as_numbers(a: u32, b: u32)
    ensures
        ({
            let x = Single { bits: a };
            let y = Single { bits: b };
            &&& x.nan() <==> 0x7f80_0000 < a < 0x8000_0000 || 0xff80_0000 < a
            &&& a <= 0x7f80_0000 && b <= 0x7f80_0000 ==> (x.below(y) <==> a < b) && (x.at_most(y)
                <==> a <= b)
            &&& 0x8000_0000 <= a <= 0xff80_0000 && 0x8000_0000 <= b <= 0xff80_0000 ==> (x.below(y)
                <==> a > b) && (x.at_most(y) <==> a >= b)
            &&& 0x8000_0000 < a <= 0xff80_0000 && b <= 0x7f80_0000 ==> x.below(y) && !y.below(x)
            &&& a == 0x8000_0000 && b == 0 ==> x.equals(y) && y.equals(x) && !x.below(y)
            &&& x.nan() || y.nan() ==> !x.below(y) && !x.at_most(y) && !x.equals(y)
            &&& !x.nan() && !y.nan() ==> (x.equals(y) <==> x.at_most(y) && y.at_most(x))
        }),
{
}

/// Turning the sign twice changes nothing, turning it once reverses the order, and a
/// number without its sign is on the positive side and as far from 0.0.
pub proof fn signs_turn(a: Single, b: Single)
    ensures
        a.negated().negated() == a,
        a.negated().signed() != a.signed(),
        a.negated().magnitude() == a.magnitude(),
        a.below(b) <==> b.negated().below(a.negated()),
        !a.absolute().signed(),
        a.absolute().magnitude() == a.magnitude(),
        !a.signed() ==> a.absolute() == a,
        a.signed() ==> a.absolute() == a.negated(),
{
}

/// Clamping gives the end that a number lies beyond, and otherwise the number.
pub proof fn clamping_stops_at_the_ends(v: Single)
    ensures
        v.below(Single { bits: 0xbf80_0000 }) ==> v.clamped() == (Single { bits: 0xbf80_0000 }),
        (Single { bits: 0x3f80_0000 }).below(v) ==> v.clamped() == (Single { bits: 0x3f80_0000 }),
        !v.below(Single { bits: 0xbf80_0000 }) && !(Single { bits: 0x3f80_0000 }).below(v)
            ==> v.clamped() == v,
        v.in_unit() <==> !v.nan() && !v.below(Single { bits: 0xbf80_0000 }) && !(Single {
            bits: 0x3f80_0000,
        }).below(v),
{
}

} // verus!
