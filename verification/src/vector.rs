//! The two-dimensional vector value type and its operations.

use vstd::prelude::*;
use vstd::std_specs::ops::{AddSpec, DivSpec, MulSpec, SubSpec};
use crate::scalar::{Scalar, in_range, trunc_div};
use crate::convert::{LosslessFrom, LossyCast};

verus! {

/// A two-dimensional vector: two public fields of one scalar kind.
/// There is no invariant beyond the shared field type; any pair of values
/// is a vector.
#[derive(Copy, Clone, Debug, Eq, PartialEq)]
pub struct Vector2D<T> {
    pub x: T,
    pub y: T,
}

/// The one field-wise conversion rule shared by every lossless conversion
/// path (`from_vec2d`, `into_vec2d`, and construction from a pair).
pub open spec fn lossless_map<T: LosslessFrom<U>, U: Scalar>(src: Vector2D<U>) -> Vector2D<T> {
    Vector2D { x: T::lossless_spec(src.x), y: T::lossless_spec(src.y) }
}

impl<T: Copy> Vector2D<T> {
    /// Builds a vector from its two components, without validation.
    pub fn new(x: T, y: T) -> (r: Self)
        ensures
            r.x == x,
            r.y == y,
    {
        Vector2D { x, y }
    }
}

impl<T: Scalar> Vector2D<T> {
    /// Converts each field of `src` losslessly; the mathematical values are
    /// preserved exactly.
    pub fn from_vec2d<U: Scalar>(src: Vector2D<U>) -> (r: Vector2D<T>) where T: LosslessFrom<U>
        ensures
            r == lossless_map::<T, U>(src),
            r.x.sval() == src.x.sval(),
            r.y.sval() == src.y.sval(),
    {
        Vector2D { x: T::lossless_from(src.x), y: T::lossless_from(src.y) }
    }

    /// The same conversion as `from_vec2d`, invoked from the source side.
    pub fn into_vec2d<U: LosslessFrom<T>>(&self) -> (r: Vector2D<U>)
        ensures
            r == lossless_map::<U, T>(*self),
            r.x.sval() == self.x.sval(),
            r.y.sval() == self.y.sval(),
    {
        Vector2D { x: U::lossless_from(self.x), y: U::lossless_from(self.y) }
    }

    /// The dot product: the sum of the field-wise products.  Both products
    /// and their sum must be representable in the scalar kind.
    pub fn dot(v1: &Self, v2: &Self) -> (r: T)
        requires
            in_range::<T>(v1.x.sval() * v2.x.sval()),
            in_range::<T>(v1.y.sval() * v2.y.sval()),
            in_range::<T>(v1.x.sval() * v2.x.sval() + v1.y.sval() * v2.y.sval()),
        ensures
            r.sval() == v1.x.sval() * v2.x.sval() + v1.y.sval() * v2.y.sval(),
    {
        v1.x.mul_exact(v2.x).add_exact(v1.y.mul_exact(v2.y))
    }

    /// The dot product of the vector with itself.
    pub fn length_squared(&self) -> (r: T)
        requires
            in_range::<T>(self.x.sval() * self.x.sval()),
            in_range::<T>(self.y.sval() * self.y.sval()),
            in_range::<T>(
                self.x.sval() * self.x.sval() + self.y.sval() * self.y.sval(),
            ),
        ensures
            r.sval() == self.x.sval() * self.x.sval() + self.y.sval() * self.y.sval(),
    {
        Self::dot(self, self)
    }
}

impl<T: LosslessFrom<U>, U: Scalar> From<(U, U)> for Vector2D<T> {
    /// Builds the vector from a pair: the first element becomes `x`, the
    /// second `y`, each converted by the shared lossless rule.
    fn from(src: (U, U)) -> (r: Vector2D<T>) {
        Vector2D { x: T::lossless_from(src.0), y: T::lossless_from(src.1) }
    }
}

impl<T: LosslessFrom<U>, U: Scalar> vstd::std_specs::convert::FromSpecImpl<(U, U)> for Vector2D<T> {
    open spec fn obeys_from_spec() -> bool {
        true
    }

    open spec fn from_spec(v: (U, U)) -> Vector2D<T> {
        lossless_map::<T, U>(Vector2D { x: v.0, y: v.1 })
    }
}

impl<T: LosslessFrom<U>, U: Scalar> From<[U; 2]> for Vector2D<T> {
    /// Builds the vector from a two-element array: the element at zero
    /// becomes `x`, the element at one `y`, each converted by the shared
    /// lossless rule.
    fn from(src: [U; 2]) -> (r: Vector2D<T>) {
        Vector2D { x: T::lossless_from(src[0]), y: T::lossless_from(src[1]) }
    }
}

impl<T: LosslessFrom<U>, U: Scalar> vstd::std_specs::convert::FromSpecImpl<[U; 2]> for Vector2D<T> {
    open spec fn obeys_from_spec() -> bool {
        true
    }

    open spec fn from_spec(v: [U; 2]) -> Vector2D<T> {
        lossless_map::<T, U>(Vector2D { x: v[0], y: v[1] })
    }
}

impl<T: LossyCast<i32>> Vector2D<T> {
    /// Casts each field to 32-bit signed under this pair's lossy rule.
    pub fn as_i32s(&self) -> (r: Vector2D<i32>)
        ensures
            r.x == <T as LossyCast<i32>>::cast_spec(self.x),
            r.y == <T as LossyCast<i32>>::cast_spec(self.y),
    {
        Vector2D { x: self.x.lossy_cast(), y: self.y.lossy_cast() }
    }
}

impl<T: LossyCast<i64>> Vector2D<T> {
    /// Casts each field to 64-bit signed under this pair's lossy rule.
    pub fn as_i64s(&self) -> (r: Vector2D<i64>)
        ensures
            r.x == <T as LossyCast<i64>>::cast_spec(self.x),
            r.y == <T as LossyCast<i64>>::cast_spec(self.y),
    {
        Vector2D { x: self.x.lossy_cast(), y: self.y.lossy_cast() }
    }
}

impl<T: LossyCast<isize>> Vector2D<T> {
    /// Casts each field to pointer-width signed under this pair's lossy rule.
    pub fn as_isizes(&self) -> (r: Vector2D<isize>)
        ensures
            r.x == <T as LossyCast<isize>>::cast_spec(self.x),
            r.y == <T as LossyCast<isize>>::cast_spec(self.y),
    {
        Vector2D { x: self.x.lossy_cast(), y: self.y.lossy_cast() }
    }
}

impl<T: LossyCast<u32>> Vector2D<T> {
    /// Casts each field to 32-bit unsigned; signed sources floor-clamp at
    /// zero first.
    pub fn as_u32s(&self) -> (r: Vector2D<u32>)
        ensures
            r.x == <T as LossyCast<u32>>::cast_spec(self.x),
            r.y == <T as LossyCast<u32>>::cast_spec(self.y),
    {
        Vector2D { x: self.x.lossy_cast(), y: self.y.lossy_cast() }
    }
}

impl<T: LossyCast<u64>> Vector2D<T> {
    /// Casts each field to 64-bit unsigned; signed sources floor-clamp at
    /// zero first.
    pub fn as_u64s(&self) -> (r: Vector2D<u64>)
        ensures
            r.x == <T as LossyCast<u64>>::cast_spec(self.x),
            r.y == <T as LossyCast<u64>>::cast_spec(self.y),
    {
        Vector2D { x: self.x.lossy_cast(), y: self.y.lossy_cast() }
    }
}

impl<T: LossyCast<usize>> Vector2D<T> {
    /// Casts each field to pointer-width unsigned; signed sources floor-clamp
    /// at zero first.
    pub fn as_usizes(&self) -> (r: Vector2D<usize>)
        ensures
            r.x == <T as LossyCast<usize>>::cast_spec(self.x),
            r.y == <T as LossyCast<usize>>::cast_spec(self.y),
    {
        Vector2D { x: self.x.lossy_cast(), y: self.y.lossy_cast() }
    }
}

impl<T: Scalar> Vector2D<T> {
    /// The in-place sum: leaves exactly the value that `self + rhs` returns.
    pub fn add_assign(&mut self, rhs: Vector2D<T>)
        requires
            old(self).add_req(rhs),
        ensures
            *final(self) == old(self).add_spec(rhs),
    {
        *self = *self + rhs;
    }

    /// The in-place difference: leaves exactly the value that `self - rhs`
    /// returns.
    pub fn sub_assign(&mut self, rhs: Vector2D<T>)
        requires
            old(self).sub_req(rhs),
        ensures
            *final(self) == old(self).sub_spec(rhs),
    {
        *self = *self - rhs;
    }

    /// The in-place scalar product: leaves exactly the value that
    /// `self * rhs` returns.
    pub fn mul_assign(&mut self, rhs: T)
        requires
            old(self).mul_req(rhs),
        ensures
            *final(self) == old(self).mul_spec(rhs),
    {
        *self = *self * rhs;
    }

    /// The in-place scalar quotient: leaves exactly the value that
    /// `self / rhs` returns.
    pub fn div_assign(&mut self, rhs: T)
        requires
            old(self).div_req(rhs),
        ensures
            *final(self) == old(self).div_spec(rhs),
    {
        *self = *self / rhs;
    }
}

impl<T: Scalar> core::ops::Add<Vector2D<T>> for Vector2D<T> {
    type Output = Vector2D<T>;

    /// The field-wise sum; both sums must be representable.
    fn add(self, rhs: Vector2D<T>) -> (r: Vector2D<T>) {
        let r = Vector2D { x: self.x.add_exact(rhs.x), y: self.y.add_exact(rhs.y) };
        proof {
            r.x.sval_in_range();
            r.y.sval_in_range();
        }
        r
    }
}

impl<T: Scalar> vstd::std_specs::ops::AddSpecImpl<Vector2D<T>> for Vector2D<T> {
    open spec fn obeys_add_spec() -> bool {
        true
    }

    open spec fn add_req(self, rhs: Vector2D<T>) -> bool {
        in_range::<T>(self.x.sval() + rhs.x.sval()) && in_range::<T>(self.y.sval() + rhs.y.sval())
    }

    open spec fn add_spec(self, rhs: Vector2D<T>) -> Vector2D<T> {
        Vector2D {
            x: T::from_int(self.x.sval() + rhs.x.sval()),
            y: T::from_int(self.y.sval() + rhs.y.sval()),
        }
    }
}

impl<T: Scalar> core::ops::Add<&Vector2D<T>> for &Vector2D<T> {
    type Output = Vector2D<T>;

    /// The field-wise sum, non-consuming; both sums must be representable.
    fn add(self, rhs: &Vector2D<T>) -> (r: Vector2D<T>) {
        let r = Vector2D { x: self.x.add_exact(rhs.x), y: self.y.add_exact(rhs.y) };
        proof {
            r.x.sval_in_range();
            r.y.sval_in_range();
        }
        r
    }
}

impl<T: Scalar> vstd::std_specs::ops::AddSpecImpl<&Vector2D<T>> for &Vector2D<T> {
    open spec fn obeys_add_spec() -> bool {
        true
    }

    open spec fn add_req(self, rhs: &Vector2D<T>) -> bool {
        in_range::<T>(self.x.sval() + rhs.x.sval()) && in_range::<T>(self.y.sval() + rhs.y.sval())
    }

    open spec fn add_spec(self, rhs: &Vector2D<T>) -> Vector2D<T> {
        Vector2D {
            x: T::from_int(self.x.sval() + rhs.x.sval()),
            y: T::from_int(self.y.sval() + rhs.y.sval()),
        }
    }
}

impl<T: Scalar> core::ops::Sub<Vector2D<T>> for Vector2D<T> {
    type Output = Vector2D<T>;

    /// The field-wise difference; both differences must be representable.
    fn sub(self, rhs: Vector2D<T>) -> (r: Vector2D<T>) {
        let r = Vector2D { x: self.x.sub_exact(rhs.x), y: self.y.sub_exact(rhs.y) };
        proof {
            r.x.sval_in_range();
            r.y.sval_in_range();
        }
        r
    }
}

impl<T: Scalar> vstd::std_specs::ops::SubSpecImpl<Vector2D<T>> for Vector2D<T> {
    open spec fn obeys_sub_spec() -> bool {
        true
    }

    open spec fn sub_req(self, rhs: Vector2D<T>) -> bool {
        in_range::<T>(self.x.sval() - rhs.x.sval()) && in_range::<T>(self.y.sval() - rhs.y.sval())
    }

    open spec fn sub_spec(self, rhs: Vector2D<T>) -> Vector2D<T> {
        Vector2D {
            x: T::from_int(self.x.sval() - rhs.x.sval()),
            y: T::from_int(self.y.sval() - rhs.y.sval()),
        }
    }
}

impl<T: Scalar> core::ops::Sub<&Vector2D<T>> for &Vector2D<T> {
    type Output = Vector2D<T>;

    /// The field-wise difference, non-consuming; both differences must be
    /// representable.
    fn sub(self, rhs: &Vector2D<T>) -> (r: Vector2D<T>) {
        let r = Vector2D { x: self.x.sub_exact(rhs.x), y: self.y.sub_exact(rhs.y) };
        proof {
            r.x.sval_in_range();
            r.y.sval_in_range();
        }
        r
    }
}

impl<T: Scalar> vstd::std_specs::ops::SubSpecImpl<&Vector2D<T>> for &Vector2D<T> {
    open spec fn obeys_sub_spec() -> bool {
        true
    }

    open spec fn sub_req(self, rhs: &Vector2D<T>) -> bool {
        in_range::<T>(self.x.sval() - rhs.x.sval()) && in_range::<T>(self.y.sval() - rhs.y.sval())
    }

    open spec fn sub_spec(self, rhs: &Vector2D<T>) -> Vector2D<T> {
        Vector2D {
            x: T::from_int(self.x.sval() - rhs.x.sval()),
            y: T::from_int(self.y.sval() - rhs.y.sval()),
        }
    }
}

impl<T: Scalar> core::ops::Mul<T> for Vector2D<T> {
    type Output = Vector2D<T>;

    /// The field-wise product with a scalar; both products must be
    /// representable.
    fn mul(self, rhs: T) -> (r: Vector2D<T>) {
        let r = Vector2D { x: self.x.mul_exact(rhs), y: self.y.mul_exact(rhs) };
        proof {
            r.x.sval_in_range();
            r.y.sval_in_range();
        }
        r
    }
}

impl<T: Scalar> vstd::std_specs::ops::MulSpecImpl<T> for Vector2D<T> {
    open spec fn obeys_mul_spec() -> bool {
        true
    }

    open spec fn mul_req(self, rhs: T) -> bool {
        in_range::<T>(self.x.sval() * rhs.sval()) && in_range::<T>(self.y.sval() * rhs.sval())
    }

    open spec fn mul_spec(self, rhs: T) -> Vector2D<T> {
        Vector2D {
            x: T::from_int(self.x.sval() * rhs.sval()),
            y: T::from_int(self.y.sval() * rhs.sval()),
        }
    }
}

impl<T: Scalar> core::ops::Mul<T> for &Vector2D<T> {
    type Output = Vector2D<T>;

    /// The field-wise product with a scalar, non-consuming; both products
    /// must be representable.
    fn mul(self, rhs: T) -> (r: Vector2D<T>) {
        let r = Vector2D { x: self.x.mul_exact(rhs), y: self.y.mul_exact(rhs) };
        proof {
            r.x.sval_in_range();
            r.y.sval_in_range();
        }
        r
    }
}

impl<T: Scalar> vstd::std_specs::ops::MulSpecImpl<T> for &Vector2D<T> {
    open spec fn obeys_mul_spec() -> bool {
        true
    }

    open spec fn mul_req(self, rhs: T) -> bool {
        in_range::<T>(self.x.sval() * rhs.sval()) && in_range::<T>(self.y.sval() * rhs.sval())
    }

    open spec fn mul_spec(self, rhs: T) -> Vector2D<T> {
        Vector2D {
            x: T::from_int(self.x.sval() * rhs.sval()),
            y: T::from_int(self.y.sval() * rhs.sval()),
        }
    }
}

impl<T: Scalar> core::ops::Div<T> for Vector2D<T> {
    type Output = Vector2D<T>;

    /// The field-wise quotient by a scalar, truncated toward zero; the
    /// divisor must be nonzero and both quotients representable.
    fn div(self, rhs: T) -> (r: Vector2D<T>) {
        let r = Vector2D { x: self.x.div_trunc(rhs), y: self.y.div_trunc(rhs) };
        proof {
            r.x.sval_in_range();
            r.y.sval_in_range();
        }
        r
    }
}

impl<T: Scalar> vstd::std_specs::ops::DivSpecImpl<T> for Vector2D<T> {
    open spec fn obeys_div_spec() -> bool {
        true
    }

    open spec fn div_req(self, rhs: T) -> bool {
        rhs.sval() != 0 && in_range::<T>(trunc_div(self.x.sval(), rhs.sval())) && in_range::<T>(
            trunc_div(self.y.sval(), rhs.sval()),
        )
    }

    open spec fn div_spec(self, rhs: T) -> Vector2D<T> {
        Vector2D {
            x: T::from_int(trunc_div(self.x.sval(), rhs.sval())),
            y: T::from_int(trunc_div(self.y.sval(), rhs.sval())),
        }
    }
}

impl<T: Scalar> core::ops::Div<T> for &Vector2D<T> {
    type Output = Vector2D<T>;

    /// The field-wise quotient by a scalar, truncated toward zero,
    /// non-consuming; the divisor must be nonzero and both quotients
    /// representable.
    fn div(self, rhs: T) -> (r: Vector2D<T>) {
        let r = Vector2D { x: self.x.div_trunc(rhs), y: self.y.div_trunc(rhs) };
        proof {
            r.x.sval_in_range();
            r.y.sval_in_range();
        }
        r
    }
}

impl<T: Scalar> vstd::std_specs::ops::DivSpecImpl<T> for &Vector2D<T> {
    open spec fn obeys_div_spec() -> bool {
        true
    }

    open spec fn div_req(self, rhs: T) -> bool {
        rhs.sval() != 0 && in_range::<T>(trunc_div(self.x.sval(), rhs.sval())) && in_range::<T>(
            trunc_div(self.y.sval(), rhs.sval()),
        )
    }

    open spec fn div_spec(self, rhs: T) -> Vector2D<T> {
        Vector2D {
            x: T::from_int(trunc_div(self.x.sval(), rhs.sval())),
            y: T::from_int(trunc_div(self.y.sval(), rhs.sval())),
        }
    }
}

} // verus!
