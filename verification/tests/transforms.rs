use raygeom::fixed::Fixed;
use raygeom::normal::Normal3;
use raygeom::scalar::Scalar;
use raygeom::point::Point3;
use raygeom::traits::Vector;
use raygeom::transform::{Matrix4, Transform};
use raygeom::vector::Vector3;

fn fi(i: i64) -> Fixed {
    Fixed::from_int(i)
}

fn close(a: Fixed, b: Fixed, tol_micros: i64) -> bool {
    !a.is_nan() && !b.is_nan() && (a.to_micros() - b.to_micros()).abs() <= tol_micros
}

fn mat_close(a: &Matrix4<Fixed>, b: &Matrix4<Fixed>, tol_micros: i64) -> bool {
    let mut ok = true;
    for i in 0..4usize {
        for j in 0..4usize {
            ok = ok && close(a.get(i, j), b.get(i, j), tol_micros);
        }
    }
    ok
}

fn diag(x: i64, y: i64, z: i64) -> Matrix4<Fixed> {
    Matrix4::from_values(
        fi(x),
        fi(0),
        fi(0),
        fi(0),
        fi(0),
        fi(y),
        fi(0),
        fi(0),
        fi(0),
        fi(0),
        fi(z),
        fi(0),
        fi(0),
        fi(0),
        fi(0),
        fi(1),
    )
}

#[test]
fn identity_and_transpose() {
    let id: Matrix4<Fixed> = Matrix4::new();
    assert_eq!(id.get(0, 0), fi(1));
    assert_eq!(id.get(0, 1), fi(0));
    assert_eq!(id.get(3, 3), fi(1));
    let m = Matrix4::from_values(
        fi(1),
        fi(2),
        fi(3),
        fi(4),
        fi(5),
        fi(6),
        fi(7),
        fi(8),
        fi(9),
        fi(10),
        fi(11),
        fi(12),
        fi(13),
        fi(14),
        fi(15),
        fi(16),
    );
    let t = m.transpose();
    assert_eq!(t.get(0, 1), fi(5));
    assert_eq!(t.get(1, 0), fi(2));
    assert_eq!(t.get(3, 2), fi(12));
    let tt = t.transpose();
    assert!(mat_close(&tt, &m, 0));
}

#[test]
fn matrix_product_of_known_values() {
    let a = diag(2, 3, 4);
    let b = diag(5, 6, 7);
    let p = a.mul(&b);
    assert_eq!(p.get(0, 0), fi(10));
    assert_eq!(p.get(1, 1), fi(18));
    assert_eq!(p.get(2, 2), fi(28));
    assert_eq!(p.get(3, 3), fi(1));
    assert_eq!(p.get(0, 1), fi(0));
    let id: Matrix4<Fixed> = Matrix4::new();
    assert!(mat_close(&a.mul(&id), &a, 0));
}

#[test]
fn inverse_of_a_diagonal_matrix() {
    let m = diag(2, 4, 5);
    let inv = m.inverse().unwrap();
    assert_eq!(inv.get(0, 0), Fixed::from_micros(500_000));
    assert_eq!(inv.get(1, 1), Fixed::from_micros(250_000));
    assert_eq!(inv.get(2, 2), Fixed::from_micros(200_000));
    let id: Matrix4<Fixed> = Matrix4::new();
    assert!(mat_close(&m.mul(&inv), &id, 2));
}

#[test]
fn inverse_of_a_translation_matrix() {
    let m = Matrix4::from_values(
        fi(1),
        fi(0),
        fi(0),
        fi(5),
        fi(0),
        fi(1),
        fi(0),
        fi(-3),
        fi(0),
        fi(0),
        fi(1),
        fi(2),
        fi(0),
        fi(0),
        fi(0),
        fi(1),
    );
    let inv = m.inverse().unwrap();
    assert_eq!(inv.get(0, 3), fi(-5));
    assert_eq!(inv.get(1, 3), fi(3));
    assert_eq!(inv.get(2, 3), fi(-2));
    let id: Matrix4<Fixed> = Matrix4::new();
    assert!(mat_close(&m.mul(&inv), &id, 0));
}

#[test]
fn double_inversion_returns_to_the_matrix() {
    let m = Matrix4::from_values(
        fi(2),
        fi(1),
        fi(0),
        fi(0),
        fi(1),
        fi(2),
        fi(0),
        fi(0),
        fi(0),
        fi(0),
        fi(1),
        fi(0),
        fi(0),
        fi(0),
        fi(0),
        fi(1),
    );
    let inv = m.inverse().unwrap();
    let back = inv.inverse().unwrap();
    assert!(mat_close(&back, &m, 20));
    let id: Matrix4<Fixed> = Matrix4::new();
    assert!(mat_close(&m.mul(&inv), &id, 20));
}

#[test]
fn inverse_needing_pivot_swaps() {
    // A permutation matrix forces row and column exchanges.
    let m = Matrix4::from_values(
        fi(0),
        fi(1),
        fi(0),
        fi(0),
        fi(1),
        fi(0),
        fi(0),
        fi(0),
        fi(0),
        fi(0),
        fi(0),
        fi(1),
        fi(0),
        fi(0),
        fi(1),
        fi(0),
    );
    let inv = m.inverse().unwrap();
    let id: Matrix4<Fixed> = Matrix4::new();
    assert!(mat_close(&m.mul(&inv), &id, 0));
}

#[test]
fn singular_matrix_is_refused() {
    let zero_row = diag(1, 1, 0);
    assert!(zero_row.inverse().is_err());
    let all_zero = Matrix4::from_values(
        fi(0),
        fi(0),
        fi(0),
        fi(0),
        fi(0),
        fi(0),
        fi(0),
        fi(0),
        fi(0),
        fi(0),
        fi(0),
        fi(0),
        fi(0),
        fi(0),
        fi(0),
        fi(0),
    );
    assert!(all_zero.inverse().is_err());
    assert!(Transform::new(zero_row).is_err());
}

#[test]
fn transform_new_pairs_matrix_and_inverse() {
    let m = diag(2, 2, 2);
    let t = Transform::new(m).unwrap();
    assert_eq!(t.m.get(0, 0), fi(2));
    assert_eq!(t.m_inv.get(0, 0), Fixed::from_micros(500_000));
}

#[test]
fn inverse_swap_is_involutive() {
    let t = Transform::translate(&Vector3::new(fi(1), fi(2), fi(3)));
    let back = t.inverse().inverse();
    assert!(mat_close(&back.m, &t.m, 0));
    assert!(mat_close(&back.m_inv, &t.m_inv, 0));
    let inv = t.inverse();
    assert!(mat_close(&inv.m, &t.m_inv, 0));
    assert!(mat_close(&inv.m_inv, &t.m, 0));
}

#[test]
fn translate_moves_a_point_and_back() {
    let t = Transform::translate(&Vector3::new(fi(1), fi(2), fi(3)));
    let p = t.apply_point(&Point3::new(fi(0), fi(0), fi(0)));
    assert_eq!(p.x, fi(1));
    assert_eq!(p.y, fi(2));
    assert_eq!(p.z, fi(3));
    let back = t.inverse().apply_point(&Point3::new(fi(1), fi(2), fi(3)));
    assert_eq!(back.x, fi(0));
    assert_eq!(back.y, fi(0));
    assert_eq!(back.z, fi(0));
}

#[test]
fn translate_leaves_vectors_alone() {
    let t = Transform::translate(&Vector3::new(fi(9), fi(9), fi(9)));
    let v = t.apply_vector(&Vector3::new(fi(1), fi(2), fi(3)));
    assert_eq!(v.x, fi(1));
    assert_eq!(v.y, fi(2));
    assert_eq!(v.z, fi(3));
}

#[test]
fn scale_doubles_a_vector_and_halves_a_normal() {
    let t = Transform::scale(fi(2), fi(2), fi(2));
    let v = t.apply_vector(&Vector3::new(fi(1), fi(1), fi(1)));
    assert_eq!(v.x, fi(2));
    assert_eq!(v.y, fi(2));
    assert_eq!(v.z, fi(2));
    let n = t.apply_normal(&Normal3::new(fi(1), fi(1), fi(1)));
    assert_eq!(n.x, Fixed::from_micros(500_000));
    assert_eq!(n.y, Fixed::from_micros(500_000));
    assert_eq!(n.z, Fixed::from_micros(500_000));
}

#[test]
fn nonuniform_scale_transforms_normals_by_the_inverse_transpose() {
    let t = Transform::scale(fi(2), fi(1), fi(1));
    // A surface with normal along x stretched in x flattens the normal
    // by the reciprocal factor.
    let n = t.apply_normal(&Normal3::new(fi(1), fi(0), fi(1)));
    assert_eq!(n.x, Fixed::from_micros(500_000));
    assert_eq!(n.z, fi(1));
    let v = t.apply_vector(&Vector3::new(fi(1), fi(0), fi(1)));
    assert_eq!(v.x, fi(2));
    assert_eq!(v.z, fi(1));
}

#[test]
fn rotations_about_the_axes() {
    let t = Transform::rotate_z(fi(90));
    let v = t.apply_vector(&Vector3::new(fi(1), fi(0), fi(0)));
    assert!(close(v.x, fi(0), 1_000));
    assert!(close(v.y, fi(1), 1_000));
    assert!(close(v.z, fi(0), 1));
    let tx = Transform::rotate_x(fi(90));
    let w = tx.apply_vector(&Vector3::new(fi(0), fi(1), fi(0)));
    assert!(close(w.y, fi(0), 1_000));
    assert!(close(w.z, fi(1), 1_000));
    let ty = Transform::rotate_y(fi(90));
    let u = ty.apply_vector(&Vector3::new(fi(0), fi(0), fi(1)));
    assert!(close(u.x, fi(1), 1_000));
    assert!(close(u.z, fi(0), 1_000));
}

#[test]
fn axis_angle_rotation_matches_the_axis_aligned_one() {
    let general = Transform::rotate(fi(90), &Vector3::new(fi(0), fi(0), fi(3)));
    let about_z = Transform::rotate_z(fi(90));
    assert!(mat_close(&general.m, &about_z.m, 1_000));
    // The axis itself stays put.
    let a = general.apply_vector(&Vector3::new(fi(0), fi(0), fi(5)));
    assert!(close(a.z, fi(5), 1_000));
    assert!(close(a.x, fi(0), 1_000));
}

#[test]
fn rotation_inverse_is_its_transpose() {
    let t = Transform::rotate_x(fi(30));
    assert!(mat_close(&t.m_inv, &t.m.transpose(), 0));
    let r = Transform::rotate(fi(45), &Vector3::new(fi(1), fi(1), fi(0)));
    assert!(mat_close(&r.m_inv, &r.m.transpose(), 0));
}

#[test]
fn composition_applies_right_operand_first() {
    let scale = Transform::scale(fi(2), fi(2), fi(2));
    let shift = Transform::translate(&Vector3::new(fi(1), fi(0), fi(0)));
    // shift * scale doubles first, then shifts.
    let both = shift.mul(&scale);
    let p = both.apply_point(&Point3::new(fi(1), fi(1), fi(1)));
    assert_eq!(p.x, fi(3));
    assert_eq!(p.y, fi(2));
    // The composed inverse undoes the composition.
    let back = both.inverse().apply_point(&p);
    assert_eq!(back.x, fi(1));
    assert_eq!(back.y, fi(1));
    assert_eq!(back.z, fi(1));
}

#[test]
fn look_at_maps_world_to_camera() {
    let pos = Point3::new(fi(0), fi(0), fi(-5));
    let look = Point3::new(fi(0), fi(0), fi(0));
    let up = Vector3::new(fi(0), fi(1), fi(0));
    let t = Transform::look_at(&pos, &look, &up).unwrap();
    // The camera-to-world side carries the camera position in its last
    // column.
    assert_eq!(t.m_inv.get(0, 3), fi(0));
    assert_eq!(t.m_inv.get(2, 3), fi(-5));
    // The view direction column points from the camera toward the scene.
    assert!(close(t.m_inv.get(2, 2), fi(1), 10));
    // The world-to-camera side sends the camera position to the origin.
    let o = t.apply_point(&pos);
    assert!(close(o.x, fi(0), 10));
    assert!(close(o.y, fi(0), 10));
    assert!(close(o.z, fi(0), 10));
    // A point straight ahead lands on the positive depth axis.
    let ahead = t.apply_point(&look);
    assert!(close(ahead.z, fi(5), 10));
}

#[test]
fn transform_from_trusts_the_given_pair() {
    let m = diag(3, 3, 3);
    let id: Matrix4<Fixed> = Matrix4::new();
    let t = Transform::from(&m, &id);
    assert_eq!(t.m.get(0, 0), fi(3));
    assert_eq!(t.m_inv.get(0, 0), fi(1));
}

#[test]
fn perspective_weight_divides_the_point() {
    // A matrix whose last row doubles the homogeneous weight.
    let m = Matrix4::from_values(
        fi(1),
        fi(0),
        fi(0),
        fi(0),
        fi(0),
        fi(1),
        fi(0),
        fi(0),
        fi(0),
        fi(0),
        fi(1),
        fi(0),
        fi(0),
        fi(0),
        fi(0),
        fi(2),
    );
    let t = Transform::from(&m, &m);
    let p = t.apply_point(&Point3::new(fi(4), fi(6), fi(8)));
    assert_eq!(p.x, fi(2));
    assert_eq!(p.y, fi(3));
    assert_eq!(p.z, fi(4));
}

#[test]
fn normalize_before_rotation_is_callers_duty() {
    let axis = Vector3::new(fi(0), fi(10), fi(0));
    let t = Transform::rotate(fi(180), &axis);
    let v = t.apply_vector(&Vector3::new(fi(1), fi(0), fi(0)));
    assert!(close(v.x, fi(-1), 1_000));
    let kept = Vector::normalize(&axis);
    assert_eq!(kept.y, fi(1));
}
