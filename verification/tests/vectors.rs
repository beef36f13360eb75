use std::collections::hash_map::DefaultHasher;
use std::hash::Hash;
use std::hash::Hasher;
use vecmat::IVector2;
use vecmat::Vector2;
use vecmat::Vector3;
use vecmat::Vector4;

fn b(x: f32) -> u32 {
    x.to_bits()
}

fn v2(x: f32, y: f32) -> Vector2 {
    Vector2 { x: b(x), y: b(y) }
}

fn v3(x: f32, y: f32, z: f32) -> Vector3 {
    Vector3 { x: b(x), y: b(y), z: b(z) }
}

fn v4(x: f32, y: f32, z: f32, w: f32) -> Vector4 {
    Vector4 { x: b(x), y: b(y), z: b(z), w: b(w) }
}

#[test]
fn hash() {
    let zero_hash = {
        let mut hasher = DefaultHasher::new();
        IVector2::splat(0).hash(&mut hasher);
        hasher.finish()
    };
    let one_hash = {
        let mut hasher = DefaultHasher::new();
        IVector2::splat(1).hash(&mut hasher);
        hasher.finish()
    };
    let zero_two_hash = {
        let mut hasher = DefaultHasher::new();
        IVector2::splat(0).hash(&mut hasher);
        hasher.finish()
    };

    assert_ne!(zero_hash, one_hash);
    assert_eq!(zero_hash, zero_two_hash);
}

#[test]
fn vector2_test() {
    assert_eq!(v2(8.6, 1.5).add(v2(-5.2, 0.1)), v2(8.6 - 5.2, 1.5 + 0.1));
    assert_eq!(v2(1.2, 5.0).sub(v2(0.2, 1.0)), v2(1.2 - 0.2, 5.0 - 1.0));
    assert_eq!(v2(5.0, 1.0).mul(v2(5.0, 6.9)), v2(5.0 * 5.0, 1.0 * 6.9));
    assert_eq!(v2(8.0, 5.6).div(v2(2.0, 1.0)), v2(8.0 / 2.0, 5.6 / 1.0));
}

#[test]
fn vector3_test() {
    assert_eq!(
        v3(2.0, 2.0, 2.0).add(v3(2.0, 2.0, 2.0)),
        v3(2.0 + 2.0, 2.0 + 2.0, 2.0 + 2.0)
    );
}

#[test]
fn hash_bytes_concatenates_little_endian_components() {
    let v = IVector2 { x: 1, y: -1 };
    assert_eq!(v.hash_bytes(), vec![1, 0, 0, 0, 255, 255, 255, 255]);
    let w = IVector2 { x: 0x0403_0201, y: 0x0807_0605 };
    assert_eq!(w.hash_bytes(), vec![1, 2, 3, 4, 5, 6, 7, 8]);
}

#[test]
fn ivector2_componentwise_arithmetic() {
    let a = IVector2 { x: 6, y: -9 };
    let r = IVector2 { x: 2, y: 3 };
    assert_eq!(a.add(r), IVector2 { x: 8, y: -6 });
    assert_eq!(a.sub(r), IVector2 { x: 4, y: -12 });
    assert_eq!(a.mul(r), IVector2 { x: 12, y: -27 });
    assert_eq!(a.div(r), IVector2 { x: 3, y: -3 });
}

#[test]
fn ivector2_division_truncates_toward_zero() {
    let a = IVector2 { x: -7, y: 7 };
    let r = IVector2 { x: 2, y: -2 };
    assert_eq!(a.div(r), IVector2 { x: -3, y: -3 });
    let mut c = IVector2 { x: -9, y: 10 };
    c.div_assign(IVector2 { x: 4, y: 3 });
    assert_eq!(c, IVector2 { x: -2, y: 3 });
}

#[test]
fn ivector2_assign_variants_match_pure_ops() {
    let mut a = IVector2 { x: 5, y: -4 };
    a.add_assign(IVector2 { x: 1, y: 2 });
    assert_eq!(a, IVector2 { x: 6, y: -2 });
    a.sub_assign(IVector2 { x: 2, y: -2 });
    assert_eq!(a, IVector2 { x: 4, y: 0 });
    a.mul_assign(IVector2 { x: -3, y: 7 });
    assert_eq!(a, IVector2 { x: -12, y: 0 });
}

#[test]
fn vector2_magnitude_and_normalize() {
    let v = v2(3.0, 4.0);
    assert_eq!(f32::from_bits(v.magnitude()), 5.0);
    assert_eq!(v.normalized(), v2(0.6, 0.8));
    let mut m = v2(3.0, 4.0);
    m.normalize();
    assert_eq!(m, v2(0.6, 0.8));
}

#[test]
fn vector3_magnitude_and_normalize() {
    let v = v3(0.0, 3.0, 4.0);
    assert_eq!(f32::from_bits(v.magnitude()), 5.0);
    let mut m = v3(0.0, 3.0, 4.0);
    m.normalize();
    assert_eq!(m, v3(0.0, 0.6, 0.8));
}

#[test]
fn vector3_componentwise_and_scalar_ops() {
    let a = v3(1.0, -2.0, 8.0);
    let r = v3(4.0, 0.5, -2.0);
    assert_eq!(a.sub(r), v3(-3.0, -2.5, 10.0));
    assert_eq!(a.mul(r), v3(4.0, -1.0, -16.0));
    assert_eq!(a.div(r), v3(0.25, -4.0, -4.0));
    assert_eq!(a.mul_scalar(b(2.0)), v3(2.0, -4.0, 16.0));
    assert_eq!(a.div_scalar(b(4.0)), v3(0.25, -0.5, 2.0));
}

#[test]
fn vector4_splat_and_magnitude() {
    assert_eq!(Vector4::splat(b(1.0)), v4(1.0, 1.0, 1.0, 1.0));
    assert_eq!(f32::from_bits(v4(1.0, 1.0, 1.0, 1.0).magnitude()), 2.0);
}

#[test]
fn vector4_componentwise_ops_and_assign_variants() {
    let a = v4(1.0, 2.0, 3.0, 4.0);
    let r = v4(4.0, -1.0, 0.5, 2.0);
    assert_eq!(a.add(r), v4(5.0, 1.0, 3.5, 6.0));
    assert_eq!(a.sub(r), v4(-3.0, 3.0, 2.5, 2.0));
    assert_eq!(a.mul(r), v4(4.0, -2.0, 1.5, 8.0));
    assert_eq!(a.div(r), v4(0.25, -2.0, 6.0, 2.0));
    assert_eq!(a.mul_scalar(b(2.0)), v4(2.0, 4.0, 6.0, 8.0));
    assert_eq!(a.div_scalar(b(2.0)), v4(0.5, 1.0, 1.5, 2.0));

    let mut m = a;
    m.add_assign(r);
    assert_eq!(m, a.add(r));
    let mut m = a;
    m.sub_assign(r);
    assert_eq!(m, a.sub(r));
    let mut m = a;
    m.mul_assign(r);
    assert_eq!(m, a.mul(r));
    let mut m = a;
    m.div_assign(r);
    assert_eq!(m, a.div(r));
}

#[test]
fn vector4_normalize_divides_by_magnitude() {
    let mut v = v4(2.0, 0.0, 0.0, 0.0);
    v.normalize();
    assert_eq!(v, v4(1.0, 0.0, 0.0, 0.0));
}

#[test]
fn zero_and_one_constructors() {
    assert_eq!(IVector2::zero(), IVector2 { x: 0, y: 0 });
    assert_eq!(IVector2::one(), IVector2 { x: 1, y: 1 });
    assert_eq!(Vector2::zero(), v2(0.0, 0.0));
    assert_eq!(Vector2::one(), v2(1.0, 1.0));
    assert_eq!(Vector3::zero(), v3(0.0, 0.0, 0.0));
    assert_eq!(Vector3::one(), v3(1.0, 1.0, 1.0));
    assert_eq!(Vector4::zero(), v4(0.0, 0.0, 0.0, 0.0));
    assert_eq!(Vector4::one(), v4(1.0, 1.0, 1.0, 1.0));
}

#[test]
fn axis_vector_constructors() {
    assert_eq!(IVector2::up(), IVector2 { x: 0, y: 1 });
    assert_eq!(IVector2::down(), IVector2 { x: 0, y: -1 });
    assert_eq!(IVector2::left(), IVector2 { x: 1, y: 0 });
    assert_eq!(IVector2::right(), IVector2 { x: -1, y: 0 });
    assert_eq!(Vector2::up(), v2(0.0, 1.0));
    assert_eq!(Vector2::down(), v2(0.0, -1.0));
    assert_eq!(Vector2::left(), v2(-1.0, 0.0));
    assert_eq!(Vector2::right(), v2(1.0, 0.0));
    assert_eq!(Vector3::up(), v3(0.0, 1.0, 0.0));
    assert_eq!(Vector3::down(), v3(0.0, -1.0, 0.0));
    assert_eq!(Vector3::left(), v3(-1.0, 0.0, 0.0));
    assert_eq!(Vector3::right(), v3(1.0, 0.0, 0.0));
    assert_eq!(Vector3::forward(), v3(0.0, 0.0, 1.0));
    assert_eq!(Vector3::back(), v3(0.0, 0.0, -1.0));
}

#[test]
fn degenerate_division_degrades_to_nan_and_infinity() {
    let r = v2(0.0, 1.0).div(v2(0.0, 0.0));
    assert!(f32::from_bits(r.x).is_nan());
    assert_eq!(f32::from_bits(r.y), f32::INFINITY);
    let mut z = v3(0.0, 0.0, 0.0);
    z.normalize();
    assert!(f32::from_bits(z.x).is_nan());
}

#[test]
fn conversions_between_integer_and_float_vectors() {
    assert_eq!(Vector2::from(IVector2 { x: 2, y: -3 }), v2(2.0, -3.0));
    assert_eq!(IVector2::from(v2(2.7, -3.9)), IVector2 { x: 2, y: -3 });
}
