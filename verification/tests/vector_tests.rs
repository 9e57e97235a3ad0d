use vector2d::Vector2D;

#[test]
fn test_dot() {
    let v1 = Vector2D::new(10, 5);
    let v2 = Vector2D::new(2, 1);

    let result = Vector2D::dot(&v1, &v2);

    assert_eq!(25, result);
}

#[test]
fn test_from_vec2d() {
    let iv = Vector2D::new(10, 5);
    let fv: Vector2D<i64> = Vector2D::from_vec2d(iv);
    assert_eq!(Vector2D::new(10, 5), fv);
}

#[test]
fn test_into_vec2d() {
    let iv = Vector2D::new(10, 5);
    let fv: Vector2D<i64> = iv.into_vec2d();
    assert_eq!(Vector2D::new(10, 5), fv);
}

#[test]
fn test_from_tuple() {
    let ituple = (10, 5);
    let fv: Vector2D<i64> = ituple.into();
    assert_eq!(Vector2D::new(10, 5), fv);
}

#[test]
fn test_from_array() {
    let arr = [10, 5];
    let fv: Vector2D<i64> = arr.into();
    assert_eq!(Vector2D::new(10, 5), fv);
}

#[test]
fn test_length_squared() {
    let v = Vector2D::new(10, 5);
    let r = v.length_squared();
    assert_eq!(125, r);
}

#[test]
fn test_add() {
    let v1 = Vector2D::new(10, 5);
    let v2 = Vector2D::new(1, 2);

    let result = v1 + v2;

    assert_eq!(Vector2D::new(11, 7), result);
}

#[test]
fn test_add_assign() {
    let mut v1 = Vector2D::new(10, 5);
    let v2 = Vector2D::new(1, 2);

    v1.add_assign(v2);

    assert_eq!(Vector2D::new(11, 7), v1);
}

#[test]
fn test_sub() {
    let v1 = Vector2D::new(10, 5);
    let v2 = Vector2D::new(1, 2);

    let result = v1 - v2;

    assert_eq!(Vector2D::new(9, 3), result);
}

#[test]
fn test_sub_assign() {
    let mut v1 = Vector2D::new(10, 5);
    let v2 = Vector2D::new(1, 2);

    v1.sub_assign(v2);

    assert_eq!(Vector2D::new(9, 3), v1);
}

#[test]
fn test_mul() {
    let v = Vector2D::new(10, 5);
    let f = 2;

    let result = v * f;

    assert_eq!(Vector2D::new(20, 10), result);
}

#[test]
fn test_mul_assign() {
    let mut v = Vector2D::new(10, 5);
    let f = 2;

    v.mul_assign(f);

    assert_eq!(Vector2D::new(20, 10), v);
}

#[test]
fn test_div() {
    let v = Vector2D::new(10, 4);
    let f = 2;

    let result = v / f;

    assert_eq!(Vector2D::new(5, 2), result);
}

#[test]
fn test_div_assign() {
    let mut v = Vector2D::new(10, 4);
    let f = 2;

    v.div_assign(f);

    assert_eq!(Vector2D::new(5, 2), v);
}

#[test]
fn i64_as_i32() {
    let wv: Vector2D<i64> = Vector2D::new(10, 11);
    let iv = wv.as_i32s();
    assert_eq!(Vector2D::new(10, 11), iv);
}

#[test]
fn i32_as_u32() {
    let iv: Vector2D<i32> = Vector2D::new(10, 11);
    let uv = iv.as_u32s();
    assert_eq!(Vector2D::new(10, 11), uv);
}

#[test]
fn i32_as_u32_bounded() {
    let iv: Vector2D<i32> = Vector2D::new(-10, -11);
    let uv = iv.as_u32s();
    assert_eq!(Vector2D::new(0, 0), uv);
}
