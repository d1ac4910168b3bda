use vstd::prelude::*;

verus! {

/// Direction of a displacement along one axis, ordered
/// `Neg < Zer < Pos`.
#[derive(Clone, Copy, Debug, PartialEq, Eq, Structural, PartialOrd, Ord)]
pub enum Sign {
    Neg,
    Zer,
    Pos,
}

/// The direction of an integer: `Zer` for zero, else its sign.
pub open spec fn sign_of(v: int) -> Sign {
    if v == 0 {
        Sign::Zer
    } else if v > 0 {
        Sign::Pos
    } else {
        Sign::Neg
    }
}

impl Sign {
    /// The integer that stands for this direction: `1`, `0` or `-1`.
    pub open spec fn spec_to_int(self) -> int {
        match self {
            Sign::Pos => 1,
            Sign::Zer => 0,
            Sign::Neg => -1,
        }
    }

    /// Product of two directions: `Zer` absorbs, equal directions give `Pos`,
    /// opposite ones `Neg`.
    pub open spec fn spec_mul(self, rhs: Sign) -> Sign {
        if self == Sign::Zer || rhs == Sign::Zer {
            Sign::Zer
        } else if self == rhs {
            Sign::Pos
        } else {
            Sign::Neg
        }
    }

    /// `1`, `0` or `-1`.
    pub fn to_int(self) -> (r: i32)
        ensures
            r == self.spec_to_int(),
    {
        match self {
            Sign::Pos => 1,
            Sign::Zer => 0,
            Sign::Neg => -1,
        }
    }

    /// `Pos` for `true`, `Neg` for `false`.
    pub fn from_bool(b: bool) -> (r: Sign)
        ensures
            r == (if b { Sign::Pos } else { Sign::Neg }),
    {
        if b {
            Sign::Pos
        } else {
            Sign::Neg
        }
    }

    /// The direction of `v`.
    pub fn from_int(v: i64) -> (r: Sign)
        ensures
            r == sign_of(v as int),
    {
        if v == 0 {
            Sign::Zer
        } else if v > 0 {
            Sign::Pos
        } else {
            Sign::Neg
        }
    }

    /// Product of two directions.
    pub fn mul(self, rhs: Sign) -> (r: Sign)
        ensures
            r == self.spec_mul(rhs),
            r.spec_to_int() == self.spec_to_int() * rhs.spec_to_int(),
    {
        match (self, rhs) {
            (Sign::Zer, _) | (_, Sign::Zer) => Sign::Zer,
            (Sign::Pos, Sign::Neg) | (Sign::Neg, Sign::Pos) => Sign::Neg,
            (Sign::Pos, Sign::Pos) | (Sign::Neg, Sign::Neg) => Sign::Pos,
        }
    }

    /// `rhs`, `0` or `-rhs`, as the direction says.
    pub fn mul_i64(self, rhs: i64) -> (r: i64)
        requires
            rhs > i64::MIN,
        ensures
            r == self.spec_to_int() * rhs,
    {
        match self {
            Sign::Pos => rhs,
            Sign::Zer => 0,
            Sign::Neg => -rhs,
        }
    }
}

/// The product of directions does not depend on the order of its operands,
/// and `Zer` absorbs any direction.
pub proof fn lemma_mul_commutative(a: Sign, b: Sign)
    ensures
        a.spec_mul(b) == b.spec_mul(a),
        a.spec_mul(Sign::Zer) == Sign::Zer,
{
}

/// The direction of an integer, read back as `1`, `0` or `-1`, has the sign of
/// that integer, and zero gives zero.
pub proof fn lemma_sign_of_round_trip(v: int)
    ensures
        sign_of(v).spec_to_int() > 0 <==> v > 0,
        sign_of(v).spec_to_int() < 0 <==> v < 0,
        sign_of(v).spec_to_int() == 0 <==> v == 0,
{
}

} // verus!
