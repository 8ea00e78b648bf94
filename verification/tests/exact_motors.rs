use hydrolox_pga3d::angle::Angle;
use hydrolox_pga3d::motor::Motor;
use hydrolox_pga3d::point::Point;
use hydrolox_pga3d::scalar::Scalar;
use hydrolox_pga3d::transform::Transform;

fn whole(i: i16) -> Scalar {
    Scalar::from_int(i)
}

fn raw(r: i32) -> Scalar {
    Scalar::from_raw(r)
}

fn point(x: i16, y: i16, z: i16, w: i16) -> Point {
    Point::new(whole(x), whole(y), whole(z), whole(w))
}

fn motor(v: [i16; 4], m: [i16; 4]) -> Motor {
    Motor::new(
        whole(v[0]),
        whole(v[1]),
        whole(v[2]),
        whole(v[3]),
        whole(m[0]),
        whole(m[1]),
        whole(m[2]),
        whole(m[3]),
    )
}

/// Half a turn: the half angle has sine one and cosine zero.
fn half_turn() -> Angle {
    Angle::new(whole(1), whole(0))
}

/// No turn at all.
fn no_turn() -> Angle {
    Angle::new(whole(0), whole(1))
}

/// The angle whose half has sine 3/5 and cosine 4/5, as nearly as the grid
/// allows.
fn three_four_five() -> Angle {
    Angle::new(raw(629146), raw(838861))
}

#[test]
fn angle_new_keeps_its_arguments() {
    let a = Angle::new(raw(3), raw(4));
    assert_eq!(a.sin_half.raw, 3);
    assert_eq!(a.cos_half.raw, 4);
}

#[test]
fn motor_identity_is_zero_zero_zero_one() {
    assert_eq!(Motor::identity(), motor([0, 0, 0, 1], [0, 0, 0, 0]));
}

#[test]
fn motor_new_keeps_its_arguments() {
    let m = motor([1, 2, 3, 4], [5, 6, 7, 8]);
    assert_eq!(m.vx, whole(1));
    assert_eq!(m.vy, whole(2));
    assert_eq!(m.vz, whole(3));
    assert_eq!(m.vw, whole(4));
    assert_eq!(m.mx, whole(5));
    assert_eq!(m.my, whole(6));
    assert_eq!(m.mz, whole(7));
    assert_eq!(m.mw, whole(8));
}

#[test]
fn motor_from_translation_halves() {
    assert_eq!(
        Motor::from_translation(whole(2), whole(-4), whole(6)),
        motor([0, 0, 0, 1], [1, -2, 3, 0])
    );
    // halves of a raw unit go away from zero
    let odd = Motor::from_translation(raw(3), raw(-3), raw(1));
    assert_eq!(odd.mx.raw, 2);
    assert_eq!(odd.my.raw, -2);
    assert_eq!(odd.mz.raw, 1);
}

#[test]
fn motor_translation_moves_exactly() {
    let t = Motor::from_translation(whole(2), whole(0), whole(0));
    assert_eq!(t.transform(Point::zero()), point(2, 0, 0, 1));
    assert_eq!(t.transform(point(1, 2, 3, 1)), point(3, 2, 3, 1));
}

#[test]
fn motor_translation_leaves_directions() {
    let t = Motor::from_translation(whole(2), whole(4), whole(6));
    assert_eq!(t.transform(point(1, 2, 3, 0)), point(1, 2, 3, 0));
}

#[test]
fn motor_translation_counts_the_weight() {
    let t = Motor::from_translation(whole(2), whole(0), whole(0));
    assert_eq!(t.transform(point(2, 0, 0, 2)), point(6, 0, 0, 2));
}

#[test]
fn motor_transform_keeps_the_weight() {
    let m = Motor::from_euler_pos_and_rot(
        whole(1),
        whole(2),
        whole(3),
        three_four_five(),
        half_turn(),
        three_four_five(),
    );
    for w in [i32::MIN, -i32::MAX, -1048576, -1, 0, 1, 1048576, 12345, i32::MAX] {
        let p = Point::new(whole(1), whole(2), whole(3), Scalar { raw: w });
        assert_eq!(m.transform(p).w.raw, w);
    }
}

#[test]
fn motor_transform_saturates() {
    let t = Motor::from_translation(whole(i16::MAX), whole(i16::MIN), whole(0));
    let far = Point::new_position(whole(i16::MAX), whole(i16::MIN), whole(0));
    let image = t.transform(far);
    assert_eq!(image.x.raw, i32::MAX);
    assert_eq!(image.y.raw, -i32::MAX);
    assert_eq!(image.z.raw, 0);
}

#[test]
fn motor_half_turn_about_an_axis() {
    let about_y = Motor::from_rotation_around_axis(whole(0), whole(1), whole(0), half_turn());
    assert_eq!(about_y, motor([0, 1, 0, 0], [0, 0, 0, 0]));
    assert_eq!(about_y.transform(point(1, 2, 3, 1)), point(-1, 2, -3, 1));
    let about_x = Motor::from_rotation_around_axis(whole(1), whole(0), whole(0), half_turn());
    assert_eq!(about_x.transform(point(1, 2, 3, 1)), point(1, -2, -3, 1));
    let about_z = Motor::from_rotation_around_axis(whole(0), whole(0), whole(1), half_turn());
    assert_eq!(about_z.transform(point(1, 2, 3, 1)), point(-1, -2, 3, 1));
}

#[test]
fn motor_rotation_scales_the_axis_by_the_sine() {
    let m = Motor::from_rotation_around_axis(whole(0), whole(-1), whole(0), three_four_five());
    assert_eq!(m.vx.raw, 0);
    assert_eq!(m.vy.raw, -629146);
    assert_eq!(m.vz.raw, 0);
    assert_eq!(m.vw.raw, 838861);
    assert_eq!(m.mx.raw, 0);
    assert_eq!(m.my.raw, 0);
    assert_eq!(m.mz.raw, 0);
    assert_eq!(m.mw.raw, 0);
}

#[test]
fn motor_try_rotation_takes_an_axis_of_length_one() {
    let got = Motor::try_from_rotation_around_axis(whole(0), whole(1), whole(0), half_turn());
    assert_eq!(
        got,
        Some(Motor::from_rotation_around_axis(whole(0), whole(1), whole(0), half_turn()))
    );
    // (3/5, 0, 4/5), rounded to the grid
    let tilted = Motor::try_from_rotation_around_axis(raw(629146), whole(0), raw(838861), no_turn());
    assert_eq!(tilted, Some(Motor::identity()));
}

#[test]
fn motor_try_rotation_refuses_other_axes() {
    assert_eq!(
        Motor::try_from_rotation_around_axis(whole(0), whole(2), whole(0), half_turn()),
        None
    );
    assert_eq!(
        Motor::try_from_rotation_around_axis(whole(0), whole(0), whole(0), half_turn()),
        None
    );
    assert_eq!(
        Motor::try_from_rotation_around_axis(whole(1), whole(1), whole(0), half_turn()),
        None
    );
}

#[test]
fn motor_try_rotation_allows_a_hundredth() {
    // lengths 1.004 and 0.996 are within the tolerance, 1.006 and 0.994 are not
    let a = half_turn();
    assert!(Motor::try_from_rotation_around_axis(raw(1052770), whole(0), whole(0), a).is_some());
    assert!(Motor::try_from_rotation_around_axis(raw(1044382), whole(0), whole(0), a).is_some());
    assert!(Motor::try_from_rotation_around_axis(raw(1054867), whole(0), whole(0), a).is_none());
    assert!(Motor::try_from_rotation_around_axis(raw(1042285), whole(0), whole(0), a).is_none());
}

#[test]
fn motor_combine_adds_translations() {
    let a = Motor::from_translation(whole(2), whole(0), whole(0));
    let b = Motor::from_translation(whole(0), whole(4), whole(-6));
    assert_eq!(a.combine(b), Motor::from_translation(whole(2), whole(4), whole(-6)));
    assert_eq!(b.combine(a), a.combine(b));
}

#[test]
fn motor_combine_with_the_identity() {
    let m = Motor::new(
        raw(1),
        raw(-2),
        raw(30000),
        raw(-40000),
        raw(i32::MAX),
        raw(-i32::MAX),
        raw(7),
        raw(0),
    );
    assert_eq!(m.combine(Motor::identity()), m);
    assert_eq!(Motor::identity().combine(m), m);
    assert_eq!(Motor::identity().transform(Point::up()), Point::up());
}

#[test]
fn motor_combine_does_self_first() {
    let turn = Motor::from_rotation_around_axis(whole(0), whole(1), whole(0), half_turn());
    let shift = Motor::from_translation(whole(2), whole(0), whole(0));
    let p = point(1, 2, 3, 1);
    // turned to (-1, 2, -3), then moved
    assert_eq!(turn.combine(shift).transform(p), point(1, 2, -3, 1));
    assert_eq!(shift.transform(turn.transform(p)), point(1, 2, -3, 1));
    // moved to (3, 2, 3), then turned
    assert_eq!(shift.combine(turn).transform(p), point(-3, 2, -3, 1));
    assert_eq!(turn.transform(shift.transform(p)), point(-3, 2, -3, 1));
}

#[test]
fn motor_combine_of_two_half_turns() {
    let about_x = Motor::from_rotation_around_axis(whole(1), whole(0), whole(0), half_turn());
    let about_y = Motor::from_rotation_around_axis(whole(0), whole(1), whole(0), half_turn());
    let both = about_x.combine(about_y);
    assert_eq!(both, motor([0, 0, -1, 0], [0, 0, 0, 0]));
    let p = point(1, 2, 3, 1);
    assert_eq!(both.transform(p), about_y.transform(about_x.transform(p)));
    assert_eq!(both.transform(p), point(-1, -2, 3, 1));
}

#[test]
fn motor_combine_follows_the_formula() {
    let a = motor([1, 2, 3, 4], [5, 6, 7, 8]);
    let b = motor([2, 3, 5, 7], [11, 13, 17, 19]);
    // a.combine(b): b is `other`
    let c = a.combine(b);
    assert_eq!(c.vx, whole(2 * 4 + 7 * 1 + (3 * 3 - 5 * 2)));
    assert_eq!(c.vy, whole(3 * 4 + 7 * 2 + (5 * 1 - 2 * 3)));
    assert_eq!(c.vz, whole(5 * 4 + 7 * 3 + (2 * 2 - 3 * 1)));
    assert_eq!(c.vw, whole(7 * 4 - (2 * 1 + 3 * 2 + 5 * 3)));
    assert_eq!(
        c.mx,
        whole(11 * 4 + 7 * 5 + 3 * 7 - 17 * 2 + 13 * 3 - 5 * 6 + 19 * 1 + 2 * 8)
    );
    assert_eq!(
        c.my,
        whole(13 * 4 + 7 * 6 + 5 * 5 - 11 * 3 + 17 * 1 - 2 * 7 + 19 * 2 + 3 * 8)
    );
    assert_eq!(
        c.mz,
        whole(17 * 4 + 7 * 7 + 2 * 6 - 13 * 1 + 11 * 2 - 3 * 5 + 19 * 3 + 5 * 8)
    );
    assert_eq!(
        c.mw,
        whole(7 * 8 + 4 * 19 - (2 * 5 + 11 * 1 + 3 * 6 + 13 * 2 + 5 * 7 + 17 * 3))
    );
}

#[test]
fn motor_transform_follows_the_formula() {
    let m = motor([1, 2, 3, 4], [5, 6, 7, 8]);
    let p = point(2, 3, 5, 1);
    let ax = 2 * 5 - 3 * 3 + 1 * 5;
    let ay = 3 * 2 - 1 * 5 + 1 * 6;
    let az = 1 * 3 - 2 * 2 + 1 * 7;
    let image = m.transform(p);
    assert_eq!(image.x, whole(2 + 2 * (4 * ax + (2 * az - 3 * ay) - 8 * 1 * 1)));
    assert_eq!(image.y, whole(3 + 2 * (4 * ay + (3 * ax - 1 * az) - 8 * 1 * 2)));
    assert_eq!(image.z, whole(5 + 2 * (4 * az + (1 * ay - 2 * ax) - 8 * 1 * 3)));
    assert_eq!(image.w, whole(1));
}

#[test]
fn motor_transform_rounds_once() {
    // a third of a turn about (1, 1, 1) would need roots; take small raw values instead:
    // every product below is a fraction of a raw unit, their sum is not
    let m = Motor::new(raw(0), raw(0), raw(0), raw(1048576), raw(1), raw(0), raw(0), raw(0));
    let p = Point::new(raw(0), raw(0), raw(0), raw(524288));
    // x = 0 + 2 * (1 * (one raw unit * 1/2)) = one raw unit
    assert_eq!(m.transform(p).x.raw, 1);
}

#[test]
fn motor_inverse_negates_the_vector_parts() {
    let m = motor([1, 2, 3, 4], [5, 6, 7, 8]);
    assert_eq!(m.inverse(), motor([-1, -2, -3, 4], [-5, -6, -7, 8]));
    assert_eq!(m.inverse().inverse(), m);
}

#[test]
fn motor_inverse_saturates_at_the_least_value() {
    let least = Scalar { raw: i32::MIN };
    let m = Motor::new(least, raw(0), raw(0), least, least, raw(0), raw(0), least);
    let i = m.inverse();
    assert_eq!(i.vx.raw, i32::MAX);
    assert_eq!(i.vw.raw, i32::MIN);
    assert_eq!(i.mx.raw, i32::MAX);
    assert_eq!(i.mw.raw, i32::MIN);
}

#[test]
fn motor_inverse_undoes_exactly() {
    let turn = Motor::from_rotation_around_axis(whole(0), whole(0), whole(1), half_turn());
    let m = turn.combine(Motor::from_translation(whole(2), whole(-4), whole(6)));
    let p = point(1, 2, 3, 1);
    assert_eq!(m.inverse().transform(m.transform(p)), p);
    assert_eq!(m.transform(m.inverse().transform(p)), p);
    assert_eq!(m.inverse().combine(m), Motor::identity());
    assert_eq!(m.combine(m.inverse()), Motor::identity());
}

#[test]
fn motor_translation_euler_is_where_the_origin_goes() {
    let t = Motor::from_translation(whole(2), whole(-4), whole(6));
    assert_eq!(t.translation_euler(), point(2, -4, 6, 1));
    let turn = Motor::from_rotation_around_axis(whole(0), whole(0), whole(1), half_turn());
    let m = turn.combine(t);
    assert_eq!(m.translation_euler(), m.transform(Point::zero()));
    assert_eq!(m.translation_euler(), point(2, -4, 6, 1));
    assert_eq!(turn.translation_euler(), Point::zero());
}

#[test]
fn motor_factor_translation_is_the_translation() {
    let t = Motor::from_translation(whole(2), whole(-4), whole(6));
    let turn = Motor::from_rotation_around_axis(whole(0), whole(0), whole(1), half_turn());
    let m = turn.combine(t);
    assert_eq!(m.factor_translation(), t);
    assert_eq!(
        m.factor_translation().transform(Point::zero()),
        m.translation_euler()
    );
    assert_eq!(t.factor_translation(), t);
    assert_eq!(turn.factor_translation(), Motor::identity());
}

#[test]
fn motor_factor_rotation_is_the_rotation() {
    let t = Motor::from_translation(whole(2), whole(-4), whole(6));
    let turn = Motor::from_rotation_around_axis(whole(0), whole(0), whole(1), half_turn());
    let m = turn.combine(t);
    assert_eq!(m.factor_rotation(), turn);
    assert_eq!(t.factor_rotation(), Motor::identity());
    assert_eq!(turn.factor_rotation(), turn);
}

#[test]
fn motor_factorize_gives_translation_then_rotation() {
    let t = Motor::from_translation(whole(2), whole(-4), whole(6));
    let turn = Motor::from_rotation_around_axis(whole(1), whole(0), whole(0), half_turn());
    let m = turn.combine(t);
    let (translation, rotation) = m.factorize();
    assert_eq!(translation, t);
    assert_eq!(rotation, turn);
    assert_eq!(translation, m.factor_translation());
    assert_eq!(rotation, m.factor_rotation());
    assert_eq!(rotation.combine(translation), m);
}

#[test]
fn motor_euler_angles_are_z_then_x_then_y() {
    let x = three_four_five();
    let y = Angle::new(raw(-401280), raw(968752));
    let z = Angle::new(raw(1048576), raw(0));
    let motor = Motor::from_euler_angles(x, y, z);
    let one = whole(1);
    let zero = whole(0);
    let in_turn = Motor::from_rotation_around_axis(zero, zero, one, z)
        .combine(Motor::from_rotation_around_axis(one, zero, zero, x))
        .combine(Motor::from_rotation_around_axis(zero, one, zero, y));
    assert_eq!(motor, in_turn);
    let other_order = Motor::from_rotation_around_axis(one, zero, zero, x)
        .combine(Motor::from_rotation_around_axis(zero, one, zero, y))
        .combine(Motor::from_rotation_around_axis(zero, zero, one, z));
    assert_ne!(motor, other_order);
}

#[test]
fn motor_euler_angles_of_half_turns() {
    let m = Motor::from_euler_angles(half_turn(), no_turn(), no_turn());
    assert_eq!(m, motor([1, 0, 0, 0], [0, 0, 0, 0]));
    let m = Motor::from_euler_angles(no_turn(), half_turn(), no_turn());
    assert_eq!(m, motor([0, 1, 0, 0], [0, 0, 0, 0]));
    let m = Motor::from_euler_angles(no_turn(), no_turn(), half_turn());
    assert_eq!(m, motor([0, 0, 1, 0], [0, 0, 0, 0]));
    assert_eq!(
        Motor::from_euler_angles(no_turn(), no_turn(), no_turn()),
        Motor::identity()
    );
}

#[test]
fn motor_euler_angles_take_any_sine() {
    let wild = Angle::new(Scalar { raw: i32::MIN }, Scalar { raw: i32::MIN });
    let one = whole(1);
    let zero = whole(0);
    let motor = Motor::from_euler_angles(wild, wild, wild);
    let in_turn = Motor::from_rotation_around_axis(zero, zero, one, wild)
        .combine(Motor::from_rotation_around_axis(one, zero, zero, wild))
        .combine(Motor::from_rotation_around_axis(zero, one, zero, wild));
    assert_eq!(motor, in_turn);
}

#[test]
fn motor_euler_pos_and_rot_is_rotation_then_translation() {
    let x = three_four_five();
    let y = Angle::new(raw(-401280), raw(968752));
    let z = half_turn();
    let m = Motor::from_euler_pos_and_rot(whole(7), raw(3670016), whole(4), x, y, z);
    let built = Motor::from_euler_angles(x, y, z).combine(Motor::from_translation(
        whole(7),
        raw(3670016),
        whole(4),
    ));
    assert_eq!(m, built);
}

#[test]
fn motor_euler_pos_and_rot_of_a_half_turn() {
    let m = Motor::from_euler_pos_and_rot(whole(2), whole(4), whole(6), no_turn(), half_turn(), no_turn());
    // rotation (0, 1, 0, 0); m = (t vw - tz vy + ty vz, ..), mw = -(t . v) with t = (1, 2, 3)
    assert_eq!(m, motor([0, 1, 0, 0], [-3, 0, 1, -2]));
    assert_eq!(m.transform(Point::zero()), point(2, 4, 6, 1));
    assert_eq!(m.transform(point(1, 0, 0, 1)), point(1, 4, 6, 1));
}

#[test]
fn transform_identity_and_new() {
    assert_eq!(
        Transform::identity(),
        Transform::new(whole(0), whole(0), whole(0), whole(1), whole(0), whole(0), whole(0), whole(0))
    );
    let t = Transform::new(whole(1), whole(2), whole(3), whole(4), whole(5), whole(6), whole(7), whole(8));
    assert_eq!(t.vx, whole(1));
    assert_eq!(t.mw, whole(8));
}

#[test]
fn transform_combine_follows_the_formula() {
    let a = Transform::new(whole(1), whole(2), whole(3), whole(4), whole(5), whole(6), whole(7), whole(8));
    let b = Transform::new(whole(2), whole(3), whole(5), whole(7), whole(11), whole(13), whole(17), whole(19));
    let c = a.combine(b);
    assert_eq!(c.vx, whole(1 * 7 + 4 * 2 + (2 * 5 - 3 * 3)));
    assert_eq!(c.vy, whole(2 * 7 + 4 * 3 + (3 * 2 - 1 * 5)));
    assert_eq!(c.vz, whole(3 * 7 + 4 * 5 + (1 * 3 - 2 * 2)));
    assert_eq!(c.vw, whole(4 * 7 - (1 * 2 + 2 * 3 + 3 * 5)));
    assert_eq!(
        c.mx,
        whole(5 * 7 + 4 * 11 + 2 * 17 - 7 * 3 + 6 * 5 - 3 * 13 + 8 * 2 + 1 * 19)
    );
    assert_eq!(
        c.my,
        whole(6 * 7 + 4 * 13 + 3 * 11 - 5 * 5 + 7 * 2 - 1 * 17 + 8 * 3 + 2 * 19)
    );
    assert_eq!(
        c.mz,
        whole(7 * 7 + 4 * 17 + 1 * 13 - 6 * 2 + 5 * 3 - 2 * 11 + 8 * 5 + 3 * 19)
    );
    assert_eq!(
        c.mw,
        whole(4 * 19 + 8 * 7 - (5 * 2 + 1 * 11 + 6 * 3 + 2 * 13 + 7 * 5 + 3 * 17))
    );
    let as_motors = motor([2, 3, 5, 7], [11, 13, 17, 19]).combine(motor([1, 2, 3, 4], [5, 6, 7, 8]));
    assert_eq!(
        Motor::new(c.vx, c.vy, c.vz, c.vw, c.mx, c.my, c.mz, c.mw),
        as_motors
    );
}

#[test]
fn transform_combine_does_other_first() {
    let about_x = Transform::new(whole(1), whole(0), whole(0), whole(0), whole(0), whole(0), whole(0), whole(0));
    let about_y = Transform::new(whole(0), whole(1), whole(0), whole(0), whole(0), whole(0), whole(0), whole(0));
    let along_x = Transform::new(whole(0), whole(0), whole(0), whole(1), whole(1), whole(0), whole(0), whole(0));
    let p = point(1, 2, 3, 1);
    assert_eq!(
        about_x.combine(about_y).transform(p),
        about_x.transform(about_y.transform(p))
    );
    // moved by two to (3, 2, 3), then turned about y
    assert_eq!(about_y.combine(along_x).transform(p), point(-3, 2, -3, 1));
    // turned to (-1, 2, -3), then moved
    assert_eq!(along_x.combine(about_y).transform(p), point(1, 2, -3, 1));
    assert_eq!(Transform::identity().combine(along_x), along_x);
    assert_eq!(along_x.combine(Transform::identity()), along_x);
    let as_motors = motor([0, 1, 0, 0], [0, 0, 0, 0]).combine(motor([1, 0, 0, 0], [0, 0, 0, 0]));
    let c = about_x.combine(about_y);
    assert_eq!(
        Motor::new(c.vx, c.vy, c.vz, c.vw, c.mx, c.my, c.mz, c.mw),
        as_motors
    );
}

#[test]
fn transform_transform_is_that_of_the_motor() {
    let t = Transform::new(whole(1), whole(2), whole(3), whole(4), whole(5), whole(6), whole(7), whole(8));
    let m = motor([1, 2, 3, 4], [5, 6, 7, 8]);
    let p = point(2, 3, 5, 1);
    assert_eq!(t.transform(p), m.transform(p));
}
