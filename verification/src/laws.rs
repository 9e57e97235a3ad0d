//! General properties of the library, stated once for all values and proved.

use vstd::prelude::*;
use vstd::std_specs::convert::FromSpec;
use vstd::std_specs::ops::{AddSpec, DivSpec, MulSpec, SubSpec};
use crate::scalar::{Scalar, in_range, trunc_div};
use crate::convert::{LosslessFrom, LossyCast};
use crate::vector::{Vector2D, lossless_map};

verus! {

/// A lossless conversion preserves each field's mathematical value exactly,
/// for every vector of every covered pair of scalar kinds.
pub proof fn lemma_lossless_preserves_values<T: LosslessFrom<U>, U: Scalar>(v: Vector2D<U>)
    ensures
        lossless_map::<T, U>(v).x.sval() == v.x.sval(),
        lossless_map::<T, U>(v).y.sval() == v.y.sval(),
{
    T::lossless_spec_sval(v.x);
    T::lossless_spec_sval(v.y);
}

/// Where a lossless conversion exists in both directions, converting a
/// vector over and back returns the original vector exactly.
pub proof fn lemma_lossless_round_trip<T: LosslessFrom<U>, U: LosslessFrom<T>>(v: Vector2D<U>)
    ensures
        lossless_map::<U, T>(lossless_map::<T, U>(v)) == v,
{
    let w = lossless_map::<T, U>(v);
    T::lossless_spec_sval(v.x);
    T::lossless_spec_sval(v.y);
    U::lossless_spec_sval(w.x);
    U::lossless_spec_sval(w.y);
    U::lossless_spec(w.x).sval_in_range();
    U::lossless_spec(w.y).sval_in_range();
    v.x.sval_in_range();
    v.y.sval_in_range();
}

/// Construction from a pair and from a two-element array follow the one
/// field-wise rule that `from_vec2d` and `into_vec2d` follow, so all the
/// construction paths agree.
pub proof fn lemma_construction_paths_agree<T: LosslessFrom<U>, U: Scalar>(x: U, y: U)
    ensures
        <Vector2D<T> as FromSpec<(U, U)>>::from_spec((x, y)) == lossless_map::<T, U>(
            Vector2D { x, y },
        ),
        <Vector2D<T> as FromSpec<[U; 2]>>::from_spec([x, y]) == lossless_map::<T, U>(
            Vector2D { x, y },
        ),
{
}

/// What the vector sum is, field by field: the in-place `add_assign` and the
/// `+` operator both leave `add_spec`, whose fields hold the mathematical
/// sums exactly.
pub proof fn lemma_add_spec_values<T: Scalar>(a: Vector2D<T>, b: Vector2D<T>)
    requires
        a.add_req(b),
    ensures
        a.add_spec(b).x.sval() == a.x.sval() + b.x.sval(),
        a.add_spec(b).y.sval() == a.y.sval() + b.y.sval(),
{
    T::from_int_sval(a.x.sval() + b.x.sval());
    T::from_int_sval(a.y.sval() + b.y.sval());
}

/// What the vector difference is, field by field: the in-place `sub_assign`
/// and the `-` operator both leave `sub_spec`, whose fields hold the
/// mathematical differences exactly.
pub proof fn lemma_sub_spec_values<T: Scalar>(a: Vector2D<T>, b: Vector2D<T>)
    requires
        a.sub_req(b),
    ensures
        a.sub_spec(b).x.sval() == a.x.sval() - b.x.sval(),
        a.sub_spec(b).y.sval() == a.y.sval() - b.y.sval(),
{
    T::from_int_sval(a.x.sval() - b.x.sval());
    T::from_int_sval(a.y.sval() - b.y.sval());
}

/// What the scalar product is, field by field: the in-place `mul_assign` and
/// the `*` operator both leave `mul_spec`, whose fields hold the
/// mathematical products exactly.
pub proof fn lemma_mul_spec_values<T: Scalar>(a: Vector2D<T>, b: T)
    requires
        a.mul_req(b),
    ensures
        a.mul_spec(b).x.sval() == a.x.sval() * b.sval(),
        a.mul_spec(b).y.sval() == a.y.sval() * b.sval(),
{
    T::from_int_sval(a.x.sval() * b.sval());
    T::from_int_sval(a.y.sval() * b.sval());
}

/// What the scalar quotient is, field by field: the in-place `div_assign`
/// and the `/` operator both leave `div_spec`, whose fields hold the
/// quotients of the mathematical values, truncated toward zero.
pub proof fn lemma_div_spec_values<T: Scalar>(a: Vector2D<T>, b: T)
    requires
        a.div_req(b),
    ensures
        a.div_spec(b).x.sval() == trunc_div(a.x.sval(), b.sval()),
        a.div_spec(b).y.sval() == trunc_div(a.y.sval(), b.sval()),
{
    T::from_int_sval(trunc_div(a.x.sval(), b.sval()));
    T::from_int_sval(trunc_div(a.y.sval(), b.sval()));
}

/// Every lower-bounded cast clamps each nonpositive field to zero and keeps
/// each representable nonnegative field exactly: no negative input ever
/// wraps to a large unsigned value.
pub proof fn lemma_lower_bounded_cast<S: LossyCast<T>, T: Scalar>(v: Vector2D<S>)
    requires
        S::uses_floor_clamp(),
    ensures
        v.x.sval() <= 0 ==> <S as LossyCast<T>>::cast_spec(v.x).sval() == 0,
        v.y.sval() <= 0 ==> <S as LossyCast<T>>::cast_spec(v.y).sval() == 0,
        0 <= v.x.sval() <= T::max_spec() ==> <S as LossyCast<T>>::cast_spec(v.x).sval()
            == v.x.sval(),
        0 <= v.y.sval() <= T::max_spec() ==> <S as LossyCast<T>>::cast_spec(v.y).sval()
            == v.y.sval(),
{
    <S as LossyCast<T>>::cast_spec_props(v.x);
    <S as LossyCast<T>>::cast_spec_props(v.y);
}

/// Every simple cast keeps each field whose value is already representable
/// in the target kind.
pub proof fn lemma_simple_cast_preserves<S: LossyCast<T>, T: Scalar>(v: Vector2D<S>)
    requires
        !S::uses_floor_clamp(),
    ensures
        in_range::<T>(v.x.sval()) ==> <S as LossyCast<T>>::cast_spec(v.x).sval() == v.x.sval(),
        in_range::<T>(v.y.sval()) ==> <S as LossyCast<T>>::cast_spec(v.y).sval() == v.y.sval(),
{
    <S as LossyCast<T>>::cast_spec_props(v.x);
    <S as LossyCast<T>>::cast_spec_props(v.y);
}

} // verus!
