//! The conversion matrix between scalar kinds.
//!
//! An edge of the matrix is one of:
//! - a lossless conversion (`LosslessFrom`): an injective widening that
//!   preserves the mathematical value exactly;
//! - a lossy cast (`LossyCast`): always succeeds, either by the machine's
//!   native truncating narrowing (the simple rule), or, for every
//!   signed-to-unsigned pair, by first clamping negative values to zero and
//!   then narrowing (the lower-bounded rule).

use vstd::prelude::*;
use crate::scalar::Scalar;

verus! {

/// A value clamped to a minimum of zero: the floor applied by the
/// lower-bounded casts before narrowing.
pub open spec fn floor_clamped(v: int) -> int {
    if v < 0 {
        0
    } else {
        v
    }
}

/// A lossless conversion from scalar kind `U` into `Self`.
///
/// Lossless edges are exactly the injective widenings: the mathematical
/// value is preserved without precision loss, so `sval` round-trips exactly.
pub trait LosslessFrom<U: Scalar>: Scalar {
    /// The converted value, as a specification-level function.
    spec fn lossless_spec(u: U) -> Self;

    /// The conversion preserves the mathematical value exactly.
    proof fn lossless_spec_sval(u: U)
        ensures
            Self::lossless_spec(u).sval() == u.sval(),
    ;

    /// Converts `u` into `Self` without loss.
    fn lossless_from(u: U) -> (r: Self)
        ensures
            r == Self::lossless_spec(u),
            r.sval() == u.sval(),
    ;
}

impl<T: Scalar> LosslessFrom<T> for T {
    open spec fn lossless_spec(u: T) -> T {
        u
    }

    proof fn lossless_spec_sval(u: T) {
    }

    fn lossless_from(u: T) -> (r: T) {
        u
    }
}

impl LosslessFrom<i32> for i64 {
    open spec fn lossless_spec(u: i32) -> i64 {
        u as i64
    }

    proof fn lossless_spec_sval(u: i32) {
    }

    fn lossless_from(u: i32) -> (r: i64) {
        u as i64
    }
}

impl LosslessFrom<i32> for isize {
    open spec fn lossless_spec(u: i32) -> isize {
        u as isize
    }

    proof fn lossless_spec_sval(u: i32) {
    }

    fn lossless_from(u: i32) -> (r: isize) {
        u as isize
    }
}

impl LosslessFrom<isize> for i64 {
    open spec fn lossless_spec(u: isize) -> i64 {
        u as i64
    }

    proof fn lossless_spec_sval(u: isize) {
    }

    fn lossless_from(u: isize) -> (r: i64) {
        u as i64
    }
}

impl LosslessFrom<u32> for u64 {
    open spec fn lossless_spec(u: u32) -> u64 {
        u as u64
    }

    proof fn lossless_spec_sval(u: u32) {
    }

    fn lossless_from(u: u32) -> (r: u64) {
        u as u64
    }
}

impl LosslessFrom<u32> for usize {
    open spec fn lossless_spec(u: u32) -> usize {
        u as usize
    }

    proof fn lossless_spec_sval(u: u32) {
    }

    fn lossless_from(u: u32) -> (r: usize) {
        u as usize
    }
}

impl LosslessFrom<u32> for i64 {
    open spec fn lossless_spec(u: u32) -> i64 {
        u as i64
    }

    proof fn lossless_spec_sval(u: u32) {
    }

    fn lossless_from(u: u32) -> (r: i64) {
        u as i64
    }
}

impl LosslessFrom<usize> for u64 {
    open spec fn lossless_spec(u: usize) -> u64 {
        u as u64
    }

    proof fn lossless_spec_sval(u: usize) {
    }

    fn lossless_from(u: usize) -> (r: u64) {
        u as u64
    }
}

/// A lossy cast from `Self` into scalar kind `T`, for the pairs with no
/// lossless conversion.  It never fails; it discards range or sign instead.
///
/// Each pair follows exactly one of two rules, recorded by
/// `uses_floor_clamp`:
/// - the simple rule (`false`): the machine's native narrowing cast, which
///   truncates to the target's width in two's complement;
/// - the lower-bounded rule (`true`), used by every signed-to-unsigned pair:
///   the value is first clamped to a minimum of zero, then narrowed, so a
///   negative input never wraps to a huge unsigned value.
pub trait LossyCast<T: Scalar>: Scalar {
    /// The cast value, as a specification-level function.
    spec fn cast_spec(self) -> T;

    /// Whether this pair uses the lower-bounded rule.
    spec fn uses_floor_clamp() -> bool;

    /// What the cast preserves: zero floors under the lower-bounded rule,
    /// and exact values whenever the input is representable in the target.
    proof fn cast_spec_props(self)
        ensures
            Self::uses_floor_clamp() ==> (self.sval() <= 0 ==> self.cast_spec().sval() == 0),
            Self::uses_floor_clamp() ==> (0 <= self.sval() <= T::max_spec()
                ==> self.cast_spec().sval() == self.sval()),
            !Self::uses_floor_clamp() ==> (T::min_spec() <= self.sval() <= T::max_spec()
                ==> self.cast_spec().sval() == self.sval()),
    ;

    /// Casts `self` into `T` under this pair's rule.
    fn lossy_cast(self) -> (r: T)
        ensures
            r == self.cast_spec(),
    ;
}

impl LossyCast<u32> for i32 {
    open spec fn cast_spec(self) -> u32 {
        floor_clamped(self as int) as u32
    }

    open spec fn uses_floor_clamp() -> bool {
        true
    }

    proof fn cast_spec_props(self) {
    }

    fn lossy_cast(self) -> (r: u32) {
        let c: i32 = if self < 0 { 0 } else { self };
        #[verifier::truncate] (c as u32)
    }
}

impl LossyCast<u64> for i32 {
    open spec fn cast_spec(self) -> u64 {
        floor_clamped(self as int) as u64
    }

    open spec fn uses_floor_clamp() -> bool {
        true
    }

    proof fn cast_spec_props(self) {
    }

    fn lossy_cast(self) -> (r: u64) {
        let c: i32 = if self < 0 { 0 } else { self };
        #[verifier::truncate] (c as u64)
    }
}

impl LossyCast<usize> for i32 {
    open spec fn cast_spec(self) -> usize {
        floor_clamped(self as int) as usize
    }

    open spec fn uses_floor_clamp() -> bool {
        true
    }

    proof fn cast_spec_props(self) {
    }

    fn lossy_cast(self) -> (r: usize) {
        let c: i32 = if self < 0 { 0 } else { self };
        #[verifier::truncate] (c as usize)
    }
}

impl LossyCast<u32> for i64 {
    open spec fn cast_spec(self) -> u32 {
        floor_clamped(self as int) as u32
    }

    open spec fn uses_floor_clamp() -> bool {
        true
    }

    proof fn cast_spec_props(self) {
    }

    fn lossy_cast(self) -> (r: u32) {
        let c: i64 = if self < 0 { 0 } else { self };
        #[verifier::truncate] (c as u32)
    }
}

impl LossyCast<u64> for i64 {
    open spec fn cast_spec(self) -> u64 {
        floor_clamped(self as int) as u64
    }

    open spec fn uses_floor_clamp() -> bool {
        true
    }

    proof fn cast_spec_props(self) {
    }

    fn lossy_cast(self) -> (r: u64) {
        let c: i64 = if self < 0 { 0 } else { self };
        #[verifier::truncate] (c as u64)
    }
}

impl LossyCast<usize> for i64 {
    open spec fn cast_spec(self) -> usize {
        floor_clamped(self as int) as usize
    }

    open spec fn uses_floor_clamp() -> bool {
        true
    }

    proof fn cast_spec_props(self) {
    }

    fn lossy_cast(self) -> (r: usize) {
        let c: i64 = if self < 0 { 0 } else { self };
        #[verifier::truncate] (c as usize)
    }
}

impl LossyCast<u32> for isize {
    open spec fn cast_spec(self) -> u32 {
        floor_clamped(self as int) as u32
    }

    open spec fn uses_floor_clamp() -> bool {
        true
    }

    proof fn cast_spec_props(self) {
    }

    fn lossy_cast(self) -> (r: u32) {
        let c: isize = if self < 0 { 0 } else { self };
        #[verifier::truncate] (c as u32)
    }
}

impl LossyCast<u64> for isize {
    open spec fn cast_spec(self) -> u64 {
        floor_clamped(self as int) as u64
    }

    open spec fn uses_floor_clamp() -> bool {
        true
    }

    proof fn cast_spec_props(self) {
    }

    fn lossy_cast(self) -> (r: u64) {
        let c: isize = if self < 0 { 0 } else { self };
        #[verifier::truncate] (c as u64)
    }
}

impl LossyCast<usize> for isize {
    open spec fn cast_spec(self) -> usize {
        floor_clamped(self as int) as usize
    }

    open spec fn uses_floor_clamp() -> bool {
        true
    }

    proof fn cast_spec_props(self) {
    }

    fn lossy_cast(self) -> (r: usize) {
        let c: isize = if self < 0 { 0 } else { self };
        #[verifier::truncate] (c as usize)
    }
}

impl LossyCast<i32> for i64 {
    open spec fn cast_spec(self) -> i32 {
        self as i32
    }

    open spec fn uses_floor_clamp() -> bool {
        false
    }

    proof fn cast_spec_props(self) {
    }

    fn lossy_cast(self) -> (r: i32) {
        #[verifier::truncate] (self as i32)
    }
}

impl LossyCast<isize> for i64 {
    open spec fn cast_spec(self) -> isize {
        self as isize
    }

    open spec fn uses_floor_clamp() -> bool {
        false
    }

    proof fn cast_spec_props(self) {
    }

    fn lossy_cast(self) -> (r: isize) {
        #[verifier::truncate] (self as isize)
    }
}

impl LossyCast<i32> for isize {
    open spec fn cast_spec(self) -> i32 {
        self as i32
    }

    open spec fn uses_floor_clamp() -> bool {
        false
    }

    proof fn cast_spec_props(self) {
    }

    fn lossy_cast(self) -> (r: i32) {
        #[verifier::truncate] (self as i32)
    }
}

impl LossyCast<u32> for u64 {
    open spec fn cast_spec(self) -> u32 {
        self as u32
    }

    open spec fn uses_floor_clamp() -> bool {
        false
    }

    proof fn cast_spec_props(self) {
    }

    fn lossy_cast(self) -> (r: u32) {
        #[verifier::truncate] (self as u32)
    }
}

impl LossyCast<usize> for u64 {
    open spec fn cast_spec(self) -> usize {
        self as usize
    }

    open spec fn uses_floor_clamp() -> bool {
        false
    }

    proof fn cast_spec_props(self) {
    }

    fn lossy_cast(self) -> (r: usize) {
        #[verifier::truncate] (self as usize)
    }
}

impl LossyCast<u32> for usize {
    open spec fn cast_spec(self) -> u32 {
        self as u32
    }

    open spec fn uses_floor_clamp() -> bool {
        false
    }

    proof fn cast_spec_props(self) {
    }

    fn lossy_cast(self) -> (r: u32) {
        #[verifier::truncate] (self as u32)
    }
}

impl LossyCast<i32> for u32 {
    open spec fn cast_spec(self) -> i32 {
        self as i32
    }

    open spec fn uses_floor_clamp() -> bool {
        false
    }

    proof fn cast_spec_props(self) {
    }

    fn lossy_cast(self) -> (r: i32) {
        #[verifier::truncate] (self as i32)
    }
}

impl LossyCast<i64> for u32 {
    open spec fn cast_spec(self) -> i64 {
        self as i64
    }

    open spec fn uses_floor_clamp() -> bool {
        false
    }

    proof fn cast_spec_props(self) {
    }

    fn lossy_cast(self) -> (r: i64) {
        #[verifier::truncate] (self as i64)
    }
}

impl LossyCast<isize> for u32 {
    open spec fn cast_spec(self) -> isize {
        self as isize
    }

    open spec fn uses_floor_clamp() -> bool {
        false
    }

    proof fn cast_spec_props(self) {
    }

    fn lossy_cast(self) -> (r: isize) {
        #[verifier::truncate] (self as isize)
    }
}

impl LossyCast<i32> for u64 {
    open spec fn cast_spec(self) -> i32 {
        self as i32
    }

    open spec fn uses_floor_clamp() -> bool {
        false
    }

    proof fn cast_spec_props(self) {
    }

    fn lossy_cast(self) -> (r: i32) {
        #[verifier::truncate] (self as i32)
    }
}

impl LossyCast<i64> for u64 {
    open spec fn cast_spec(self) -> i64 {
        self as i64
    }

    open spec fn uses_floor_clamp() -> bool {
        false
    }

    proof fn cast_spec_props(self) {
    }

    fn lossy_cast(self) -> (r: i64) {
        #[verifier::truncate] (self as i64)
    }
}

impl LossyCast<isize> for u64 {
    open spec fn cast_spec(self) -> isize {
        self as isize
    }

    open spec fn uses_floor_clamp() -> bool {
        false
    }

    proof fn cast_spec_props(self) {
    }

    fn lossy_cast(self) -> (r: isize) {
        #[verifier::truncate] (self as isize)
    }
}

impl LossyCast<i32> for usize {
    open spec fn cast_spec(self) -> i32 {
        self as i32
    }

    open spec fn uses_floor_clamp() -> bool {
        false
    }

    proof fn cast_spec_props(self) {
    }

    fn lossy_cast(self) -> (r: i32) {
        #[verifier::truncate] (self as i32)
    }
}

impl LossyCast<i64> for usize {
    open spec fn cast_spec(self) -> i64 {
        self as i64
    }

    open spec fn uses_floor_clamp() -> bool {
        false
    }

    proof fn cast_spec_props(self) {
    }

    fn lossy_cast(self) -> (r: i64) {
        #[verifier::truncate] (self as i64)
    }
}

impl LossyCast<isize> for usize {
    open spec fn cast_spec(self) -> isize {
        self as isize
    }

    open spec fn uses_floor_clamp() -> bool {
        false
    }

    proof fn cast_spec_props(self) {
    }

    fn lossy_cast(self) -> (r: isize) {
        #[verifier::truncate] (self as isize)
    }
}

} // verus!
