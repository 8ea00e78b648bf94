use hydrolox_pga3d::line::Line;
use hydrolox_pga3d::plane::Plane;
use hydrolox_pga3d::point::Point;
use hydrolox_pga3d::scalar::Scalar;

fn whole(i: i16) -> Scalar {
    Scalar::from_int(i)
}

fn point(x: i16, y: i16, z: i16, w: i16) -> Point {
    Point::new(whole(x), whole(y), whole(z), whole(w))
}

fn line(vx: i16, vy: i16, vz: i16, mx: i16, my: i16, mz: i16) -> Line {
    Line::new(whole(vx), whole(vy), whole(vz), whole(mx), whole(my), whole(mz))
}

fn plane(x: i16, y: i16, z: i16, w: i16) -> Plane {
    Plane::new(whole(x), whole(y), whole(z), whole(w))
}

fn same_plane(a: Plane, b: Plane) -> bool {
    a.x == b.x && a.y == b.y && a.z == b.z && a.w == b.w
}

fn same_line(a: Line, b: Line) -> bool {
    a.vx == b.vx && a.vy == b.vy && a.vz == b.vz && a.mx == b.mx && a.my == b.my && a.mz == b.mz
}

#[test]
fn point_named_positions() {
    assert_eq!(Point::zero(), point(0, 0, 0, 1));
    assert_eq!(Point::up(), point(0, 1, 0, 1));
    assert_eq!(Point::down(), point(0, -1, 0, 1));
    assert_eq!(Point::left(), point(-1, 0, 0, 1));
    assert_eq!(Point::right(), point(1, 0, 0, 1));
    assert_eq!(Point::forward(), point(0, 0, -1, 1));
    assert_eq!(Point::back(), point(0, 0, 1, 1));
    assert_eq!(Point::default(), Point::zero());
}

#[test]
fn point_constructors_set_the_weight() {
    assert_eq!(Point::new(whole(1), whole(2), whole(3), whole(4)).w, whole(4));
    assert_eq!(Point::new_position(whole(1), whole(2), whole(3)), point(1, 2, 3, 1));
    assert_eq!(Point::new_direction(whole(1), whole(2), whole(3)), point(1, 2, 3, 0));
    assert_eq!(Point::from_val(whole(5), whole(2)), point(5, 5, 5, 2));
}

#[test]
fn point_is_finite_tests_the_weight() {
    assert!(point(1, 2, 3, 1).is_finite());
    assert!(point(0, 0, 0, -2).is_finite());
    assert!(Point::new(whole(0), whole(0), whole(0), Scalar::from_raw(1)).is_finite());
    assert!(!point(1, 2, 3, 0).is_finite());
}

#[test]
fn point_buffers_hold_x_y_z_w() {
    let p = point(1, -2, 3, 1);
    assert_eq!(p.into_buffer(), [whole(1), whole(-2), whole(3), whole(1)]);
    assert_eq!(p.into_buffer_32(), [1048576, -2097152, 3145728, 1048576]);
}

#[test]
fn point_copy_to_buffer_fills_four_places() {
    let p = point(1, -2, 3, 1);
    let mut buf = [7, 7, 7, 7, 7, 7];
    p.copy_to_buffer_32(&mut buf);
    assert_eq!(buf, [1048576, -2097152, 3145728, 1048576, 7, 7]);
}

#[test]
fn point_join_gives_direction_and_moment() {
    let l = point(1, 2, 3, 1).join(point(4, 6, 8, 1));
    assert!(same_line(l, line(3, 4, 5, -2, 4, -2)));
}

#[test]
fn point_join_weighs_by_w() {
    // (1, 0, 0) with weight 2 and (0, 1, 0) with weight 3
    let l = point(2, 0, 0, 2).join(point(0, 3, 0, 3));
    assert!(same_line(l, line(-6, 6, 0, 0, 0, 6)));
}

#[test]
fn point_join_is_antisymmetric() {
    let a = Point::new(Scalar::from_raw(12345), Scalar::from_raw(-777), whole(3), Scalar::from_raw(70001));
    let b = Point::new(Scalar::from_raw(-99), whole(6), Scalar::from_raw(424242), Scalar::from_raw(65535));
    let ab = a.join(b);
    let ba = b.join(a);
    assert_eq!(ab.vx.raw, -ba.vx.raw);
    assert_eq!(ab.vy.raw, -ba.vy.raw);
    assert_eq!(ab.vz.raw, -ba.vz.raw);
    assert_eq!(ab.mx.raw, -ba.mx.raw);
    assert_eq!(ab.my.raw, -ba.my.raw);
    assert_eq!(ab.mz.raw, -ba.mz.raw);
    assert_ne!(ab.vx.raw, 0);
}

#[test]
fn point_join_is_antisymmetric_where_it_saturates() {
    let a = Point::new(whole(i16::MAX), whole(0), whole(0), whole(i16::MIN));
    let b = Point::new(whole(i16::MAX), whole(0), whole(0), whole(i16::MAX));
    let ab = a.join(b);
    let ba = b.join(a);
    assert_eq!(ab.vx.raw, -i32::MAX);
    assert_eq!(ba.vx.raw, i32::MAX);
}

#[test]
fn point_join_with_itself_is_the_zero_line() {
    let p = Point::new(Scalar::from_raw(12345), Scalar::from_raw(-777), whole(3), Scalar::from_raw(70001));
    assert!(same_line(p.join(p), line(0, 0, 0, 0, 0, 0)));
    let q = Point::new(whole(i16::MIN), whole(i16::MAX), whole(i16::MIN), whole(i16::MIN));
    assert!(same_line(q.join(q), line(0, 0, 0, 0, 0, 0)));
}

#[test]
fn point_dot_sums_all_four_products() {
    assert_eq!(point(1, 2, 3, 1).dot(point(4, 6, 8, 1)), whole(41));
    assert_eq!(point(1, 2, 3, 0).dot(point(4, 6, 8, 5)), whole(40));
}

#[test]
fn point_dot_rounds_to_the_nearest() {
    let a = Point::new(Scalar::from_raw(3), whole(0), whole(0), whole(0));
    let b = Point::new(Scalar::from_raw(5), whole(0), whole(0), whole(0));
    let half = Point::new(Scalar::from_raw(524288), whole(0), whole(0), whole(0));
    let quarter = Point::new(Scalar::from_raw(262144), whole(0), whole(0), whole(0));
    // three raw units times a half is a raw unit and a half: away from zero
    assert_eq!(a.dot(half).raw, 2);
    let minus_a = Point::new(Scalar::from_raw(-3), whole(0), whole(0), whole(0));
    assert_eq!(minus_a.dot(half).raw, -2);
    // three quarters of a raw unit go up, five quarters go down
    assert_eq!(a.dot(quarter).raw, 1);
    assert_eq!(b.dot(quarter).raw, 1);
}

#[test]
fn point_antidot_multiplies_the_weights() {
    assert_eq!(point(1, 2, 3, 2).antidot(point(4, 6, 8, 3)), whole(6));
    assert_eq!(point(1, 2, 3, 0).antidot(point(4, 6, 8, 3)), whole(0));
}

#[test]
fn point_magnitude_squared_counts_the_weight() {
    assert_eq!(point(3, 4, 0, 1).magnitude_squared(), whole(26));
    assert_eq!(point(6, 8, 0, 2).magnitude_squared(), whole(26));
    assert_eq!(point(6, 8, 0, -2).magnitude_squared(), whole(26));
    assert_eq!(Point::zero().magnitude_squared(), whole(1));
}

#[test]
fn point_magnitude_is_the_root() {
    assert_eq!(point(3, 4, 0, 1).magnitude().raw, 5346709);
    assert_eq!(Point::zero().magnitude(), whole(1));
    assert_eq!(point(0, 0, 0, 3).magnitude(), whole(1));
}

#[test]
fn point_magnitude_of_a_direction_saturates() {
    assert_eq!(point(1, 0, 0, 0).magnitude_squared().raw, i32::MAX);
    assert_eq!(point(0, 0, 0, 0).magnitude_squared().raw, 0);
    assert_eq!(
        point(1, 0, 0, 0).magnitude(),
        Scalar::from_raw(i32::MAX).sqrt()
    );
}

#[test]
fn point_scaled_divides_by_the_weight() {
    assert_eq!(point(2, 4, 6, 2).scaled(), point(1, 2, 3, 1));
    assert_eq!(point(2, 4, 6, -2).scaled(), point(-1, -2, -3, 1));
    assert_eq!(
        point(1, 0, 0, 3).scaled(),
        Point::new(Scalar::from_raw(349525), whole(0), whole(0), whole(1))
    );
    assert_eq!(
        point(-1, 0, 0, 3).scaled(),
        Point::new(Scalar::from_raw(-349525), whole(0), whole(0), whole(1))
    );
}

#[test]
fn point_scaled_of_a_direction_saturates() {
    let s = point(1, -1, 0, 0).scaled();
    assert_eq!(s.x.raw, i32::MAX);
    assert_eq!(s.y.raw, -i32::MAX);
    assert_eq!(s.z.raw, 0);
    assert_eq!(s.w.raw, 0);
}

#[test]
fn point_dist_is_the_magnitude_of_the_difference() {
    let a = point(0, 0, 0, 1);
    let b = point(3, 4, 0, 1);
    assert_eq!(a.dist(b), (b - a).magnitude());
    assert_eq!(a.dist(b).raw, 5346709);
    assert_eq!(a.dist(a), whole(1));
}

#[test]
fn point_add_is_weighted() {
    assert_eq!(point(1, 2, 3, 1) + point(4, 6, 8, 1), point(5, 8, 11, 1));
    assert_eq!(point(1, 0, 0, 2) + point(0, 1, 0, 3), point(3, 2, 0, 6));
    assert_eq!(point(1, 2, 3, 0) + point(4, 6, 8, 0), point(0, 0, 0, 0));
    assert_eq!(point(1, 2, 3, 1) + point(4, 6, 8, 0), point(4, 6, 8, 0));
}

#[test]
fn point_sub_is_weighted() {
    assert_eq!(point(1, 2, 3, 1) - point(4, 6, 8, 1), point(3, 4, 5, 1));
    assert_eq!(point(1, 0, 0, 2) - point(0, 1, 0, 3), point(-3, 2, 0, 6));
    assert_eq!(point(1, 2, 3, 1) - point(1, 2, 3, 1), point(0, 0, 0, 1));
}

#[test]
fn point_round_leaves_the_weight() {
    let p = Point::new(
        Scalar::from_raw(1572864),
        Scalar::from_raw(-1310720),
        Scalar::from_raw(524287),
        Scalar::from_raw(1572864),
    );
    assert_eq!(
        p.round(),
        Point::new(whole(2), whole(-1), whole(0), Scalar::from_raw(1572864))
    );
}

#[test]
fn point_expand_plane_follows_the_formula() {
    let l = point(1, 2, 3, 2).expand_plane(plane(4, 5, 6, 7));
    // direction -w * n, moment (z ny - y nz, x nz - z nx, y nx - x ny)
    assert!(same_line(l, line(-8, -10, -12, 3, -6, 3)));
}

#[test]
fn point_expand_line_follows_the_formula() {
    let l = line(4, 5, 6, 7, 8, 9);
    let pl = point(1, 2, 3, 2).expand_line(l);
    // (vy z - vz y + mx w, vz x - vx z + my w, vx y - vy x + mz w, -(m . p))
    assert!(same_plane(pl, plane(17, 10, 21, -50)));
    assert!(same_plane(pl, l.join(point(1, 2, 3, 2))));
}

#[test]
fn point_expand_line_of_a_point_on_the_line_is_the_zero_plane() {
    let x_axis = line(1, 0, 0, 0, 0, 0);
    assert!(same_plane(point(2, 0, 0, 1).expand_line(x_axis), plane(0, 0, 0, 0)));
    assert!(same_plane(point(-7, 0, 0, 3).expand_line(x_axis), plane(0, 0, 0, 0)));
    assert!(!same_plane(point(2, 1, 0, 1).expand_line(x_axis), plane(0, 0, 0, 0)));
    let a = point(1, 2, 3, 1);
    let b = point(4, 6, 8, 1);
    assert!(same_plane(a.expand_line(a.join(b)), plane(0, 0, 0, 0)));
    assert!(same_plane(point(7, 10, 13, 1).expand_line(a.join(b)), plane(0, 0, 0, 0)));
}

#[test]
fn line_new_keeps_its_arguments() {
    let l = line(1, 2, 3, 4, 5, 6);
    assert_eq!(l.vx, whole(1));
    assert_eq!(l.vy, whole(2));
    assert_eq!(l.vz, whole(3));
    assert_eq!(l.mx, whole(4));
    assert_eq!(l.my, whole(5));
    assert_eq!(l.mz, whole(6));
}

#[test]
fn plane_new_keeps_its_arguments() {
    let p = plane(1, 2, 3, 4);
    assert_eq!(p.x, whole(1));
    assert_eq!(p.y, whole(2));
    assert_eq!(p.z, whole(3));
    assert_eq!(p.w, whole(4));
}

#[test]
fn line_join_follows_the_formula() {
    let pl = line(1, 2, 3, 4, 5, 6).join(point(7, 8, 9, 2));
    // (vy z - vz y + mx w, vz x - vx z + my w, vx y - vy x + mz w, -(m . p))
    assert!(same_plane(pl, plane(2, 22, 6, -122)));
}

#[test]
fn line_join_with_a_point_on_it_is_the_zero_plane() {
    let a = point(1, 2, 3, 1);
    let b = point(4, 6, 8, 1);
    let through = a.join(b);
    assert!(same_plane(through.join(a), plane(0, 0, 0, 0)));
    assert!(same_plane(through.join(b), plane(0, 0, 0, 0)));
    assert!(same_plane(through.join(point(7, 10, 13, 1)), plane(0, 0, 0, 0)));
    assert!(!same_plane(through.join(point(0, 0, 0, 1)), plane(0, 0, 0, 0)));
}

#[test]
fn line_expand_follows_the_formula() {
    let pl = line(1, 2, 3, 4, 5, 6).expand(plane(7, 8, 9, 10));
    // (n x m - d v, n . v)
    assert!(same_plane(pl, plane(-7, -26, -27, 50)));
}

#[test]
fn line_expand_of_a_line_in_the_plane_is_the_zero_plane() {
    let x_axis = line(1, 0, 0, 0, 0, 0);
    let floor = plane(0, 0, 1, 0);
    assert!(same_plane(x_axis.expand(floor), plane(0, 0, 0, 0)));
    // the line through (1, 2, 3) and (4, 6, 3) lies in the plane z = 3
    let l = point(1, 2, 3, 1).join(point(4, 6, 3, 1));
    assert!(same_plane(l.expand(plane(0, 0, 1, -3)), plane(0, 0, 0, 0)));
    assert!(same_plane(l.expand(plane(0, 0, -2, 6)), plane(0, 0, 0, 0)));
}

#[test]
fn line_expand_of_a_line_not_in_the_plane_is_where_they_meet() {
    let x_axis = line(1, 0, 0, 0, 0, 0);
    // the plane x = 0 meets the x axis at the origin
    assert!(same_plane(x_axis.expand(plane(1, 0, 0, 0)), plane(0, 0, 0, 1)));
    // the plane x = 2, which is x - 2 = 0, meets it at (2, 0, 0)
    assert!(same_plane(x_axis.expand(plane(1, 0, 0, -2)), plane(2, 0, 0, 1)));
    // a line parallel to the plane but off it meets it at infinity
    let l = point(1, 2, 3, 1).join(point(4, 6, 3, 1));
    assert!(same_plane(l.expand(plane(0, 0, 1, 0)), plane(-9, -12, 0, 0)));
    // a line perpendicular to the plane meets it in one point
    let z_axis = line(0, 0, 1, 0, 0, 0);
    assert!(same_plane(z_axis.expand(plane(0, 0, 1, 0)), plane(0, 0, 0, 1)));
}
