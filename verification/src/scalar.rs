//! The scalar kinds a vector can hold: machine integers whose mathematical
//! value, range and arithmetic are stated over `int`.

use vstd::prelude::*;

verus! {

/// Integer division truncated toward zero, the rounding that the machine's
/// `/` performs on signed operands.  Unspecified when `b == 0`.
pub open spec fn trunc_div(a: int, b: int) -> int {
    if a >= 0 {
        a / b
    } else {
        -((-a) / b)
    }
}

/// Holds when the mathematical value `v` is representable in the scalar type `T`.
pub open spec fn in_range<T: Scalar>(v: int) -> bool {
    T::min_spec() <= v <= T::max_spec()
}

/// A scalar kind of the vector library.
///
/// Each implementing type is a machine integer with a mathematical value
/// (`sval`), a contiguous range of representable values, and arithmetic that
/// is exact wherever the mathematical result stays in range.
pub trait Scalar: Copy + Sized {
    /// The mathematical value of this scalar.
    spec fn sval(self) -> int;

    /// The least representable value.
    spec fn min_spec() -> int;

    /// The greatest representable value.
    spec fn max_spec() -> int;

    /// The scalar holding the mathematical value `v`; meaningful when `v`
    /// is in range.
    spec fn from_int(v: int) -> Self;

    /// Every value lies in range, and a scalar is recovered exactly from its
    /// mathematical value (so `sval` is injective).
    proof fn sval_in_range(self)
        ensures
            Self::min_spec() <= self.sval() <= Self::max_spec(),
            Self::from_int(self.sval()) == self,
    ;

    /// Within range, `from_int` carries the chosen mathematical value.
    proof fn from_int_sval(v: int)
        requires
            Self::min_spec() <= v <= Self::max_spec(),
        ensures
            Self::from_int(v).sval() == v,
    ;

    /// Exact addition; the mathematical sum must be representable.
    fn add_exact(self, other: Self) -> (r: Self)
        requires
            Self::min_spec() <= self.sval() + other.sval() <= Self::max_spec(),
        ensures
            r.sval() == self.sval() + other.sval(),
    ;

    /// Exact subtraction; the mathematical difference must be representable.
    fn sub_exact(self, other: Self) -> (r: Self)
        requires
            Self::min_spec() <= self.sval() - other.sval() <= Self::max_spec(),
        ensures
            r.sval() == self.sval() - other.sval(),
    ;

    /// Exact multiplication; the mathematical product must be representable.
    fn mul_exact(self, other: Self) -> (r: Self)
        requires
            Self::min_spec() <= self.sval() * other.sval() <= Self::max_spec(),
        ensures
            r.sval() == self.sval() * other.sval(),
    ;

    /// Division truncated toward zero; the divisor must be nonzero and the
    /// quotient representable (which rules out overflow on signed types).
    fn div_trunc(self, other: Self) -> (r: Self)
        requires
            other.sval() != 0,
            Self::min_spec() <= trunc_div(self.sval(), other.sval()) <= Self::max_spec(),
        ensures
            r.sval() == trunc_div(self.sval(), other.sval()),
    ;
}

impl Scalar for i32 {
    open spec fn sval(self) -> int {
        self as int
    }

    open spec fn min_spec() -> int {
        i32::MIN as int
    }

    open spec fn max_spec() -> int {
        i32::MAX as int
    }

    open spec fn from_int(v: int) -> i32 {
        v as i32
    }

    proof fn sval_in_range(self) {
    }

    proof fn from_int_sval(v: int) {
    }

    fn add_exact(self, other: Self) -> (r: Self) {
        self + other
    }

    fn sub_exact(self, other: Self) -> (r: Self) {
        self - other
    }

    fn mul_exact(self, other: Self) -> (r: Self) {
        self * other
    }

    fn div_trunc(self, other: Self) -> (r: Self) {
        proof {
            if other == -1 {
                assert(trunc_div(self as int, -1int) == -(self as int)) by {
                    if self >= 0 {
                        assert((self as int) / (-1int) == -(self as int));
                    } else {
                        assert((-(self as int)) / (-1int) == self as int);
                    }
                };
            }
        }
        self / other
    }
}

impl Scalar for i64 {
    open spec fn sval(self) -> int {
        self as int
    }

    open spec fn min_spec() -> int {
        i64::MIN as int
    }

    open spec fn max_spec() -> int {
        i64::MAX as int
    }

    open spec fn from_int(v: int) -> i64 {
        v as i64
    }

    proof fn sval_in_range(self) {
    }

    proof fn from_int_sval(v: int) {
    }

    fn add_exact(self, other: Self) -> (r: Self) {
        self + other
    }

    fn sub_exact(self, other: Self) -> (r: Self) {
        self - other
    }

    fn mul_exact(self, other: Self) -> (r: Self) {
        self * other
    }

    fn div_trunc(self, other: Self) -> (r: Self) {
        proof {
            if other == -1 {
                assert(trunc_div(self as int, -1int) == -(self as int)) by {
                    if self >= 0 {
                        assert((self as int) / (-1int) == -(self as int));
                    } else {
                        assert((-(self as int)) / (-1int) == self as int);
                    }
                };
            }
        }
        self / other
    }
}

impl Scalar for isize {
    open spec fn sval(self) -> int {
        self as int
    }

    open spec fn min_spec() -> int {
        isize::MIN as int
    }

    open spec fn max_spec() -> int {
        isize::MAX as int
    }

    open spec fn from_int(v: int) -> isize {
        v as isize
    }

    proof fn sval_in_range(self) {
    }

    proof fn from_int_sval(v: int) {
    }

    fn add_exact(self, other: Self) -> (r: Self) {
        self + other
    }

    fn sub_exact(self, other: Self) -> (r: Self) {
        self - other
    }

    fn mul_exact(self, other: Self) -> (r: Self) {
        self * other
    }

    fn div_trunc(self, other: Self) -> (r: Self) {
        proof {
            if other == -1 {
                assert(trunc_div(self as int, -1int) == -(self as int)) by {
                    if self >= 0 {
                        assert((self as int) / (-1int) == -(self as int));
                    } else {
                        assert((-(self as int)) / (-1int) == self as int);
                    }
                };
            }
        }
        self / other
    }
}

impl Scalar for u32 {
    open spec fn sval(self) -> int {
        self as int
    }

    open spec fn min_spec() -> int {
        0
    }

    open spec fn max_spec() -> int {
        u32::MAX as int
    }

    open spec fn from_int(v: int) -> u32 {
        v as u32
    }

    proof fn sval_in_range(self) {
    }

    proof fn from_int_sval(v: int) {
    }

    fn add_exact(self, other: Self) -> (r: Self) {
        self + other
    }

    fn sub_exact(self, other: Self) -> (r: Self) {
        self - other
    }

    fn mul_exact(self, other: Self) -> (r: Self) {
        self * other
    }

    fn div_trunc(self, other: Self) -> (r: Self) {
        self / other
    }
}

impl Scalar for u64 {
    open spec fn sval(self) -> int {
        self as int
    }

    open spec fn min_spec() -> int {
        0
    }

    open spec fn max_spec() -> int {
        u64::MAX as int
    }

    open spec fn from_int(v: int) -> u64 {
        v as u64
    }

    proof fn sval_in_range(self) {
    }

    proof fn from_int_sval(v: int) {
    }

    fn add_exact(self, other: Self) -> (r: Self) {
        self + other
    }

    fn sub_exact(self, other: Self) -> (r: Self) {
        self - other
    }

    fn mul_exact(self, other: Self) -> (r: Self) {
        self * other
    }

    fn div_trunc(self, other: Self) -> (r: Self) {
        self / other
    }
}

impl Scalar for usize {
    open spec fn sval(self) -> int {
        self as int
    }

    open spec fn min_spec() -> int {
        0
    }

    open spec fn max_spec() -> int {
        usize::MAX as int
    }

    open spec fn from_int(v: int) -> usize {
        v as usize
    }

    proof fn sval_in_range(self) {
    }

    proof fn from_int_sval(v: int) {
    }

    fn add_exact(self, other: Self) -> (r: Self) {
        self + other
    }

    fn sub_exact(self, other: Self) -> (r: Self) {
        self - other
    }

    fn mul_exact(self, other: Self) -> (r: Self) {
        self * other
    }

    fn div_trunc(self, other: Self) -> (r: Self) {
        self / other
    }
}

} // verus!
