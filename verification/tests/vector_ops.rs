use vexel::vector2::Vector2;
use vexel::vector3::Vector3;
use vexel::vector4::Vector4;

#[test]
fn new_stores_components_v2() {
    let v = Vector2::new(3, 4);
    assert_eq!(v.x, 3);
    assert_eq!(v.y, 4);
}

#[test]
fn new_stores_components_v3() {
    let v = Vector3::new(3, 4, 5);
    assert_eq!(v.x, 3);
    assert_eq!(v.y, 4);
    assert_eq!(v.z, 5);
}

#[test]
fn new_stores_components_v4() {
    let v = Vector4::new(3, 4, 5, 6);
    assert_eq!(v.x, 3);
    assert_eq!(v.y, 4);
    assert_eq!(v.z, 5);
    assert_eq!(v.w, 6);
}

#[test]
fn new_stores_float_components() {
    let v = Vector2::new(3.0_f64, 4.0_f64);
    assert_eq!(v.x, 3.0);
    assert_eq!(v.y, 4.0);
}

#[test]
fn swizzle_reverses_v2() {
    let v = Vector2::new(1.0_f64, 2.0_f64);
    assert_eq!(v.swizzle(1, 0), Vector2::new(2.0, 1.0));
}

#[test]
fn swizzle_repeats_indices_v2() {
    let v = Vector2::new(1, 2);
    assert_eq!(v.swizzle(1, 1), Vector2::new(2, 2));
}

#[test]
fn swizzle_identity_v3() {
    let v = Vector3::new(1, 2, 3);
    assert_eq!(v.swizzle(0, 1, 2), v);
}

#[test]
fn swizzle_rotates_v3() {
    let v = Vector3::new(1, 2, 3);
    assert_eq!(v.swizzle(2, 0, 1), Vector3::new(3, 1, 2));
}

#[test]
fn swizzle_reverses_v4() {
    let v = Vector4::new(1, 2, 3, 4);
    assert_eq!(v.swizzle(3, 2, 1, 0), Vector4::new(4, 3, 2, 1));
}

#[test]
fn swizzle_repeats_indices_v4() {
    let v = Vector4::new(1, 2, 3, 4);
    assert_eq!(v.swizzle(3, 3, 3, 3), Vector4::new(4, 4, 4, 4));
}

#[test]
fn add_componentwise() {
    let a = Vector2::new(1, 2);
    let b = Vector2::new(3, 4);
    assert_eq!(a.add(b), Vector2::new(4, 6));

    let a = Vector3::new(1, 2, 3);
    let b = Vector3::new(4, 5, 6);
    assert_eq!(a.add(b), Vector3::new(5, 7, 9));

    let a = Vector4::new(1, 2, 3, 4);
    let b = Vector4::new(5, 6, 7, 8);
    assert_eq!(a.add(b), Vector4::new(6, 8, 10, 12));
}

#[test]
fn add_commutes() {
    let a = Vector2::new(-5, 17);
    let b = Vector2::new(40, -3);
    assert_eq!(a.add(b), b.add(a));

    let a = Vector3::new(-5, 17, 9);
    let b = Vector3::new(40, -3, -9);
    assert_eq!(a.add(b), b.add(a));

    let a = Vector4::new(-5, 17, 9, 0);
    let b = Vector4::new(40, -3, -9, 1);
    assert_eq!(a.add(b), b.add(a));
}

#[test]
fn add_reaches_extremes() {
    let a = Vector2::new(i64::MAX - 1, i64::MIN + 1);
    let b = Vector2::new(1, -1);
    assert_eq!(a.add(b), Vector2::new(i64::MAX, i64::MIN));
}

#[test]
fn sub_componentwise() {
    let a = Vector2::new(3, 4);
    let b = Vector2::new(1, 2);
    assert_eq!(a.sub(b), Vector2::new(2, 2));

    let a = Vector3::new(3, 4, 5);
    let b = Vector3::new(1, 2, 3);
    assert_eq!(a.sub(b), Vector3::new(2, 2, 2));

    let a = Vector4::new(1, 2, 3, 4);
    let b = Vector4::new(4, 3, 2, 1);
    assert_eq!(a.sub(b), Vector4::new(-3, -1, 1, 3));
}

#[test]
fn mul_componentwise() {
    let a = Vector2::new(2, 3);
    let b = Vector2::new(4, 5);
    assert_eq!(a.mul(b), Vector2::new(8, 15));

    let a = Vector3::new(2, 3, -4);
    let b = Vector3::new(4, 5, 6);
    assert_eq!(a.mul(b), Vector3::new(8, 15, -24));

    let a = Vector4::new(2, 3, -4, 0);
    let b = Vector4::new(4, 5, 6, 7);
    assert_eq!(a.mul(b), Vector4::new(8, 15, -24, 0));
}

#[test]
fn div_componentwise() {
    let a = Vector2::new(8, 15);
    let b = Vector2::new(2, 3);
    assert_eq!(a.div(b), Vector2::new(4, 5));

    let a = Vector3::new(8, 15, 24);
    let b = Vector3::new(2, 3, 4);
    assert_eq!(a.div(b), Vector3::new(4, 5, 6));

    let a = Vector4::new(8, 15, 24, 35);
    let b = Vector4::new(2, 3, 4, 5);
    assert_eq!(a.div(b), Vector4::new(4, 5, 6, 7));
}

#[test]
fn div_rounds_toward_zero() {
    let a = Vector4::new(-7, 7, -7, 7);
    let b = Vector4::new(2, -2, -2, 2);
    assert_eq!(a.div(b), Vector4::new(-3, -3, 3, 3));
}

#[test]
fn div_at_extremes() {
    let a = Vector2::new(i64::MIN, i64::MAX);
    let b = Vector2::new(2, -1);
    assert_eq!(a.div(b), Vector2::new(i64::MIN / 2, -i64::MAX));
}

#[test]
fn equality_is_exact_componentwise() {
    assert_eq!(Vector2::new(1, 2), Vector2::new(1, 2));
    assert_ne!(Vector2::new(1, 2), Vector2::new(2, 1));
    assert_eq!(Vector3::new(0.5_f64, 1.5, 2.5), Vector3::new(0.5, 1.5, 2.5));
    assert_ne!(Vector4::new(1, 2, 3, 4), Vector4::new(1, 2, 3, 5));
}

#[test]
fn vectors_copy_freely() {
    let v = Vector3::new(1, 2, 3);
    let copy = v;
    assert_eq!(v, copy);
    assert_eq!(v.clone(), copy);
}
