use vector2d::Vector2D;

#[test]
fn identity_conversion_round_trips() {
    let v: Vector2D<i32> = Vector2D::new(-3, 7);
    let w: Vector2D<i32> = v.into_vec2d();
    let b: Vector2D<i32> = Vector2D::from_vec2d(w);
    assert_eq!(v, b);
}

#[test]
fn lossless_widenings_preserve_values() {
    let si: Vector2D<i32> = Vector2D::new(-2000000000, 2000000000);
    assert_eq!(Vector2D::new(-2000000000i64, 2000000000i64), si.into_vec2d());
    assert_eq!(
        Vector2D::new(-2000000000isize, 2000000000isize),
        si.into_vec2d()
    );

    let sp: Vector2D<isize> = Vector2D::new(-11, 13);
    assert_eq!(Vector2D::new(-11i64, 13i64), sp.into_vec2d());

    let uw: Vector2D<u32> = Vector2D::new(4000000000, 17);
    assert_eq!(Vector2D::new(4000000000u64, 17u64), uw.into_vec2d());
    assert_eq!(Vector2D::new(4000000000usize, 17usize), uw.into_vec2d());
    assert_eq!(Vector2D::new(4000000000i64, 17i64), uw.into_vec2d());

    let up: Vector2D<usize> = Vector2D::new(23, 29);
    assert_eq!(Vector2D::new(23u64, 29u64), up.into_vec2d());
}

#[test]
fn from_vec2d_agrees_with_into_vec2d() {
    let v: Vector2D<u32> = Vector2D::new(31, 37);
    let a: Vector2D<u64> = Vector2D::from_vec2d(v);
    let b: Vector2D<u64> = v.into_vec2d();
    assert_eq!(a, b);
}

#[test]
fn tuple_and_array_construction_agree() {
    let t: Vector2D<i64> = (41, 43).into();
    let a: Vector2D<i64> = [41, 43].into();
    assert_eq!(t, a);
    assert_eq!(Vector2D::new(41, 43), t);
}

#[test]
fn lower_bounded_casts_clamp_negatives_to_zero() {
    let si: Vector2D<i32> = Vector2D::new(-10, -11);
    assert_eq!(Vector2D::new(0u32, 0u32), si.as_u32s());
    assert_eq!(Vector2D::new(0u64, 0u64), si.as_u64s());
    assert_eq!(Vector2D::new(0usize, 0usize), si.as_usizes());

    let sw: Vector2D<i64> = Vector2D::new(-10, 11);
    assert_eq!(Vector2D::new(0u32, 11u32), sw.as_u32s());
    assert_eq!(Vector2D::new(0u64, 11u64), sw.as_u64s());
    assert_eq!(Vector2D::new(0usize, 11usize), sw.as_usizes());

    let sp: Vector2D<isize> = Vector2D::new(-10, 11);
    assert_eq!(Vector2D::new(0u32, 11u32), sp.as_u32s());
    assert_eq!(Vector2D::new(0u64, 11u64), sp.as_u64s());
    assert_eq!(Vector2D::new(0usize, 11usize), sp.as_usizes());
}

#[test]
fn lower_bounded_cast_truncates_after_the_floor() {
    let sw: Vector2D<i64> = Vector2D::new(4294967303, -4294967303);
    let uv = sw.as_u32s();
    assert_eq!(Vector2D::new(7u32, 0u32), uv);
}

#[test]
fn simple_casts_preserve_in_range_values() {
    let wv: Vector2D<i64> = Vector2D::new(-10, 11);
    assert_eq!(Vector2D::new(-10i32, 11i32), wv.as_i32s());
    assert_eq!(Vector2D::new(-10isize, 11isize), wv.as_isizes());

    let sp: Vector2D<isize> = Vector2D::new(-10, 11);
    assert_eq!(Vector2D::new(-10i32, 11i32), sp.as_i32s());

    let uv: Vector2D<u32> = Vector2D::new(10, 11);
    assert_eq!(Vector2D::new(10i32, 11i32), uv.as_i32s());
    assert_eq!(Vector2D::new(10i64, 11i64), uv.as_i64s());
    assert_eq!(Vector2D::new(10isize, 11isize), uv.as_isizes());

    let uw: Vector2D<u64> = Vector2D::new(10, 11);
    assert_eq!(Vector2D::new(10u32, 11u32), uw.as_u32s());
    assert_eq!(Vector2D::new(10usize, 11usize), uw.as_usizes());
    assert_eq!(Vector2D::new(10i32, 11i32), uw.as_i32s());
    assert_eq!(Vector2D::new(10i64, 11i64), uw.as_i64s());
    assert_eq!(Vector2D::new(10isize, 11isize), uw.as_isizes());

    let up: Vector2D<usize> = Vector2D::new(10, 11);
    assert_eq!(Vector2D::new(10u32, 11u32), up.as_u32s());
    assert_eq!(Vector2D::new(10i32, 11i32), up.as_i32s());
    assert_eq!(Vector2D::new(10i64, 11i64), up.as_i64s());
    assert_eq!(Vector2D::new(10isize, 11isize), up.as_isizes());
}

#[test]
fn simple_casts_truncate_out_of_range_values() {
    let wv: Vector2D<i64> = Vector2D::new(2147483648, -2147483649);
    assert_eq!(Vector2D::new(-2147483648i32, 2147483647i32), wv.as_i32s());

    let uw: Vector2D<u64> = Vector2D::new(u64::MAX, 4294967296);
    assert_eq!(Vector2D::new(u32::MAX, 0u32), uw.as_u32s());
    assert_eq!(Vector2D::new(-1i64, 4294967296i64), uw.as_i64s());

    let uv: Vector2D<u32> = Vector2D::new(u32::MAX, 10);
    assert_eq!(Vector2D::new(-1i32, 10i32), uv.as_i32s());
}
