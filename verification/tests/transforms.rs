use vecmat::Matrix3;
use vecmat::Matrix4;
use vecmat::Quaternion;
use vecmat::Vector2;
use vecmat::Vector3;

fn b(x: f32) -> u32 {
    x.to_bits()
}

fn v3(x: f32, y: f32, z: f32) -> Vector3 {
    Vector3 { x: b(x), y: b(y), z: b(z) }
}

fn quat(x: f32, y: f32, z: f32, w: f32) -> Quaternion {
    Quaternion { x: b(x), y: b(y), z: b(z), w: b(w) }
}

fn entries(m: Matrix4) -> [f32; 16] {
    [
        f32::from_bits(m.m00),
        f32::from_bits(m.m01),
        f32::from_bits(m.m02),
        f32::from_bits(m.m03),
        f32::from_bits(m.m10),
        f32::from_bits(m.m11),
        f32::from_bits(m.m12),
        f32::from_bits(m.m13),
        f32::from_bits(m.m20),
        f32::from_bits(m.m21),
        f32::from_bits(m.m22),
        f32::from_bits(m.m23),
        f32::from_bits(m.m30),
        f32::from_bits(m.m31),
        f32::from_bits(m.m32),
        f32::from_bits(m.m33),
    ]
}

fn assert_close(a: Matrix4, r: Matrix4, tolerance: f32) {
    let ea = entries(a);
    let eb = entries(r);
    for i in 0..16 {
        assert!(
            (ea[i] - eb[i]).abs() <= tolerance,
            "entry {} differs: {} vs {}",
            i,
            ea[i],
            eb[i]
        );
    }
}

fn quat_close(a: Quaternion, r: Quaternion, tolerance: f32) {
    assert!((f32::from_bits(a.x) - f32::from_bits(r.x)).abs() <= tolerance);
    assert!((f32::from_bits(a.y) - f32::from_bits(r.y)).abs() <= tolerance);
    assert!((f32::from_bits(a.z) - f32::from_bits(r.z)).abs() <= tolerance);
    assert!((f32::from_bits(a.w) - f32::from_bits(r.w)).abs() <= tolerance);
}

#[test]
fn quaternion_product_is_associative_within_tolerance() {
    let p = quat(0.18, -0.35, 0.12, 0.91);
    let q = quat(-0.40, 0.10, 0.22, 0.88);
    let r = quat(0.05, 0.61, -0.33, 0.72);
    quat_close(p.mul(q).mul(r), p.mul(q.mul(r)), 1e-6);
}

#[test]
fn quaternion_identity_is_neutral() {
    let q = quat(0.1, 0.2, 0.3, 0.9);
    assert_eq!(Quaternion::identity().mul(q), q);
    assert_eq!(q.mul(Quaternion::identity()), q);
}

#[test]
fn quaternion_mul_assign_matches_mul() {
    let p = quat(0.18, -0.35, 0.12, 0.91);
    let q = quat(-0.40, 0.10, 0.22, 0.88);
    let mut m = p;
    m.mul_assign(q);
    assert_eq!(m, p.mul(q));
}

#[test]
fn from_euler_of_zero_is_identity() {
    assert_eq!(Quaternion::from_euler(v3(0.0, 0.0, 0.0)), Quaternion::identity());
}

#[test]
fn from_euler_matches_half_angle_formula() {
    let q = Quaternion::from_euler(v3(90.0, 0.0, 0.0));
    let half = 90.0f32 * (std::f32::consts::PI / 360.0);
    assert_eq!(f32::from_bits(q.x), libm::sinf(half) * libm::cosf(0.0) * libm::cosf(0.0));
    assert_eq!(f32::from_bits(q.w), libm::cosf(half) * libm::cosf(0.0) * libm::cosf(0.0));
    assert!((f32::from_bits(q.x) - 0.70710678).abs() <= 1e-6);
    assert!((f32::from_bits(q.w) - 0.70710678).abs() <= 1e-6);
}

#[test]
fn inverse_composes_to_identity_within_tolerance() {
    let rotation = Quaternion::from_euler(v3(30.0, 40.0, 50.0));
    let m = Matrix4::from_rotation_translation_scale(rotation, v3(1.0, -2.0, 3.0), v3(1.0, 2.0, 0.5));
    let det = f32::from_bits(m.determinant());
    assert!(det != 0.0);
    assert_close(m.mul(m.invert()), Matrix4::identity(), 1e-5);
    assert_close(m.invert().mul(m), Matrix4::identity(), 1e-5);
}

#[test]
fn identity_inverts_to_identity() {
    assert_eq!(Matrix4::identity().invert(), Matrix4::identity());
}

#[test]
fn neutral_rotation_translation_scale_is_identity() {
    let m = Matrix4::from_rotation_translation_scale(
        Quaternion::identity(),
        Vector3::zero(),
        Vector3::one(),
    );
    assert_eq!(m, Matrix4::identity());
}

#[test]
fn perspective_with_square_right_angle_frustum() {
    let m = Matrix4::from_perspective(b(std::f32::consts::PI / 2.0), b(1.0), b(0.1), b(100.0));
    assert_eq!(f32::from_bits(m.m00), 1.0);
    assert_eq!(f32::from_bits(m.m11), 1.0);
    assert_eq!(f32::from_bits(m.m23), -1.0);
    assert_eq!(f32::from_bits(m.m33), 0.0);
    let nf = 1.0f32 / (0.1f32 - 100.0f32);
    assert_eq!(f32::from_bits(m.m22), (0.1f32 + 100.0f32) * nf);
    assert_eq!(f32::from_bits(m.m32), 2.0f32 * 100.0f32 * 0.1f32 * nf);
}

#[test]
fn transpose_round_trips() {
    let m = Matrix4 {
        m00: b(1.0), m01: b(2.0), m02: b(3.0), m03: b(4.0),
        m10: b(5.0), m11: b(6.0), m12: b(7.0), m13: b(8.0),
        m20: b(9.0), m21: b(10.0), m22: b(11.0), m23: b(12.0),
        m30: b(13.0), m31: b(14.0), m32: b(15.0), m33: b(16.0),
    };
    // m21 != m23, the shape on which a misplaced swap would show up.
    assert_ne!(m.m21, m.m23);
    assert_eq!(m.transpose().transpose(), m);
    let t = m.transpose();
    assert_eq!(f32::from_bits(t.m32), 12.0);
    assert_eq!(f32::from_bits(t.m23), 15.0);
}

#[test]
fn inverting_a_pure_scale_halves_the_diagonal() {
    let m = Matrix4::from_rotation_translation_scale(
        Quaternion::identity(),
        Vector3::zero(),
        v3(2.0, 2.0, 2.0),
    );
    let inv = m.invert();
    assert_eq!(f32::from_bits(inv.m00), 0.5);
    assert_eq!(f32::from_bits(inv.m11), 0.5);
    assert_eq!(f32::from_bits(inv.m22), 0.5);
    assert_eq!(f32::from_bits(inv.m33), 1.0);
}

#[test]
fn matrix_product_applies_rhs_first() {
    let translation = Matrix4::from_rotation_translation_scale(
        Quaternion::identity(),
        v3(1.0, 2.0, 3.0),
        Vector3::one(),
    );
    let scaling = Matrix4::from_rotation_translation_scale(
        Quaternion::identity(),
        Vector3::zero(),
        v3(2.0, 2.0, 2.0),
    );
    // translation.mul(scaling) scales a point first, then translates it.
    let m = translation.mul(scaling);
    assert_eq!(f32::from_bits(m.m00), 2.0);
    assert_eq!(f32::from_bits(m.m11), 2.0);
    assert_eq!(f32::from_bits(m.m22), 2.0);
    assert_eq!(f32::from_bits(m.m30), 1.0);
    assert_eq!(f32::from_bits(m.m31), 2.0);
    assert_eq!(f32::from_bits(m.m32), 3.0);
    // scaling.mul(translation) translates first, then scales the result.
    let n = scaling.mul(translation);
    assert_eq!(f32::from_bits(n.m30), 2.0);
    assert_eq!(f32::from_bits(n.m31), 4.0);
    assert_eq!(f32::from_bits(n.m32), 6.0);
}

#[test]
fn multiplying_by_identity_is_neutral() {
    let rotation = Quaternion::from_euler(v3(10.0, 20.0, 30.0));
    let m = Matrix4::from_rotation_translation_scale(rotation, v3(1.0, 2.0, 3.0), v3(2.0, 1.0, 0.5));
    assert_eq!(m.mul(Matrix4::identity()), m);
    assert_eq!(Matrix4::identity().mul(m), m);
}

#[test]
fn translate_adds_row_contributions_into_the_fourth_column() {
    let m = Matrix4::identity().translate(v3(1.0, 2.0, 3.0));
    assert_eq!(f32::from_bits(m.m30), 1.0);
    assert_eq!(f32::from_bits(m.m31), 2.0);
    assert_eq!(f32::from_bits(m.m32), 3.0);
    assert_eq!(f32::from_bits(m.m33), 1.0);
    assert_eq!(f32::from_bits(m.m00), 1.0);
    // A scaled basis weights the translation before it is added.
    let s = Matrix4::identity().scale(v3(2.0, 2.0, 2.0)).translate(v3(1.0, 2.0, 3.0));
    assert_eq!(f32::from_bits(s.m30), 2.0);
    assert_eq!(f32::from_bits(s.m31), 4.0);
    assert_eq!(f32::from_bits(s.m32), 6.0);
}

#[test]
fn scale_touches_only_the_basis_columns() {
    let m = Matrix4::identity().translate(v3(1.0, 2.0, 3.0)).scale(v3(2.0, 3.0, 4.0));
    assert_eq!(f32::from_bits(m.m00), 2.0);
    assert_eq!(f32::from_bits(m.m11), 3.0);
    assert_eq!(f32::from_bits(m.m22), 4.0);
    assert_eq!(f32::from_bits(m.m30), 1.0);
    assert_eq!(f32::from_bits(m.m31), 2.0);
    assert_eq!(f32::from_bits(m.m32), 3.0);
    assert_eq!(f32::from_bits(m.m33), 1.0);
}

#[test]
fn singular_inversion_degrades_to_non_finite_entries() {
    let zero_scale = Matrix4::from_rotation_translation_scale(
        Quaternion::identity(),
        Vector3::zero(),
        v3(0.0, 0.0, 0.0),
    );
    assert_eq!(f32::from_bits(zero_scale.determinant()), 0.0);
    let inv = zero_scale.invert();
    assert!(!f32::from_bits(inv.m00).is_finite());
    assert!(!f32::from_bits(inv.m33).is_finite());
}

#[test]
fn untouched_entries_keep_nan_payloads_bitwise() {
    // A NaN with a distinctive payload: pass-through entries must keep it
    // bit-for-bit, not merely as some NaN.
    let payload: u32 = 0x7fc0_1234;
    let mut m = Matrix4::identity();
    m.m30 = payload;
    m.m01 = payload;
    let scaled = m.scale(v3(2.0, 3.0, 4.0));
    assert_eq!(scaled.m30, payload);
    let translated = m.translate(v3(1.0, 2.0, 3.0));
    assert_eq!(translated.m01, payload);
    let built = Matrix4::from_rotation_translation_scale(
        Quaternion::identity(),
        Vector3 { x: payload, y: b(2.0), z: b(3.0) },
        Vector3::one(),
    );
    assert_eq!(built.m30, payload);
}

#[test]
fn matrix3_constructors() {
    let id = Matrix3::identity();
    assert_eq!(f32::from_bits(id.x.x), 1.0);
    assert_eq!(f32::from_bits(id.y.y), 1.0);
    assert_eq!(f32::from_bits(id.z.z), 1.0);
    assert_eq!(f32::from_bits(id.x.y), 0.0);

    let t = Matrix3::from_translation(Vector2 { x: b(5.0), y: b(6.0) });
    assert_eq!(f32::from_bits(t.z.x), 5.0);
    assert_eq!(f32::from_bits(t.z.y), 6.0);
    assert_eq!(f32::from_bits(t.z.z), 1.0);
    assert_eq!(f32::from_bits(t.x.x), 1.0);

    let o = Matrix3::ortho(b(4.0), b(2.0));
    assert_eq!(f32::from_bits(o.x.x), 0.5);
    assert_eq!(f32::from_bits(o.y.y), 1.0);
    assert_eq!(f32::from_bits(o.z.z), 1.0);
}
