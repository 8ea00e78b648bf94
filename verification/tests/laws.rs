use hydrolox_pga3d::angle::Angle;
use hydrolox_pga3d::motor::Motor;
use hydrolox_pga3d::point::Point;
use hydrolox_pga3d::scalar::Scalar;

fn whole(i: i16) -> Scalar {
    Scalar::from_int(i)
}

fn point(x: i16, y: i16, z: i16, w: i16) -> Point {
    Point::new(whole(x), whole(y), whole(z), whole(w))
}

fn half_turn_about(x: i16, y: i16, z: i16) -> Motor {
    Motor::from_rotation_around_axis(
        whole(x),
        whole(y),
        whole(z),
        Angle::new(whole(1), whole(0)),
    )
}

fn shift(x: i16, y: i16, z: i16) -> Motor {
    Motor::from_translation(whole(x), whole(y), whole(z))
}

#[test]
fn law_combine_composes_rotations() {
    let a = half_turn_about(1, 0, 0);
    let b = half_turn_about(0, 0, 1);
    for p in [point(1, 2, 3, 1), point(-4, 0, 7, 2), point(1, 1, 1, 0)] {
        assert_eq!(a.combine(b).transform(p), b.transform(a.transform(p)));
        assert_eq!(b.combine(a).transform(p), a.transform(b.transform(p)));
    }
}

#[test]
fn law_combine_composes_with_a_translation() {
    let built = half_turn_about(0, 1, 0).combine(shift(2, 4, 6));
    let t = shift(-8, 0, 2);
    for p in [point(1, 2, 3, 1), point(-4, 0, 7, 2), point(1, 1, 1, 0)] {
        assert_eq!(built.combine(t).transform(p), t.transform(built.transform(p)));
        assert_eq!(t.combine(built).transform(p), built.transform(t.transform(p)));
    }
}

#[test]
fn law_combine_composes_on_directions() {
    let a = half_turn_about(1, 0, 0).combine(shift(2, 0, 0));
    let b = half_turn_about(0, 1, 0).combine(shift(0, 2, 0));
    let d = point(1, 2, 3, 0);
    assert_eq!(a.combine(b).transform(d), b.transform(a.transform(d)));
}

#[test]
fn law_combine_composes_built_motors() {
    let a = half_turn_about(1, 0, 0).combine(shift(2, 0, 0));
    let b = half_turn_about(0, 1, 0).combine(shift(0, 2, 0));
    for p in [point(1, 2, 3, 1), point(-4, 0, 7, 2), point(1, 1, 1, 0)] {
        assert_eq!(a.combine(b).transform(p), b.transform(a.transform(p)));
        assert_eq!(b.combine(a).transform(p), a.transform(b.transform(p)));
    }
    assert_eq!(a.combine(b).transform(point(1, 2, 3, 1)), point(-3, 0, 3, 1));
}

#[test]
fn law_combine_of_a_screw_with_itself() {
    // half a turn about the third axis, then two along it
    let screw = half_turn_about(0, 0, 1).combine(shift(0, 0, 2));
    assert_eq!(
        screw,
        Motor::new(
            whole(0),
            whole(0),
            whole(1),
            whole(0),
            whole(0),
            whole(0),
            whole(0),
            whole(-1)
        )
    );
    let twice = screw.combine(screw);
    assert_eq!(twice.transform(Point::zero()), point(0, 0, 4, 1));
    assert_eq!(twice.transform(point(1, 2, 3, 1)), point(1, 2, 7, 1));
    assert_eq!(
        twice.transform(point(1, 2, 3, 1)),
        screw.transform(screw.transform(point(1, 2, 3, 1)))
    );
}

#[test]
fn law_order_of_the_factors_matters() {
    let turn = half_turn_about(0, 1, 0);
    let t = shift(2, 0, 0);
    let p = point(1, 2, 3, 1);
    assert_ne!(turn.combine(t).transform(p), turn.transform(t.transform(p)));
    assert_ne!(turn.combine(t), t.combine(turn));
}

#[test]
fn law_rotations_associate() {
    let a = half_turn_about(1, 0, 0);
    let b = half_turn_about(0, 1, 0);
    let c = half_turn_about(0, 0, 1);
    assert_eq!(a.combine(b).combine(c), a.combine(b.combine(c)));
    assert_eq!(c.combine(a).combine(b), c.combine(a.combine(b)));
}

#[test]
fn law_combine_associates() {
    let a = half_turn_about(0, 0, 1);
    let b = shift(0, 0, 2);
    let c = half_turn_about(1, 0, 0);
    let one_way = a.combine(b).combine(c);
    let other_way = a.combine(b.combine(c));
    let expected = Motor::new(
        whole(0),
        whole(-1),
        whole(0),
        whole(0),
        whole(-1),
        whole(0),
        whole(0),
        whole(0),
    );
    assert_eq!(one_way, expected);
    assert_eq!(other_way, expected);
    assert_eq!(one_way.transform(Point::zero()), point(0, 0, -2, 1));
    let t = shift(2, 0, 0);
    let turn = half_turn_about(1, 0, 0);
    let p = point(1, 2, 3, 1);
    assert_eq!(t.combine(turn).combine(turn), t.combine(turn.combine(turn)));
    assert_eq!(
        t.combine(turn).combine(turn).transform(p),
        turn.transform(turn.transform(t.transform(p)))
    );
}

#[test]
fn law_inverse_undoes() {
    for m in [
        half_turn_about(1, 0, 0),
        shift(3, -5, 7),
        half_turn_about(0, 1, 0).combine(shift(2, 4, 6)),
        shift(2, 4, 6).combine(half_turn_about(0, 0, 1)),
    ] {
        for p in [point(1, 2, 3, 1), point(-4, 0, 7, 1), point(1, 1, 1, 0)] {
            assert_eq!(m.inverse().transform(m.transform(p)), p);
            assert_eq!(m.transform(m.inverse().transform(p)), p);
        }
        assert_eq!(m.inverse().combine(m), Motor::identity());
    }
}

#[test]
fn law_factoring_undoes_building() {
    for axis in [(1, 0, 0), (0, 1, 0), (0, 0, 1)] {
        let turn = half_turn_about(axis.0, axis.1, axis.2);
        let t = shift(6, -2, 10);
        let m = turn.combine(t);
        let (translation, rotation) = m.factorize();
        assert_eq!(translation, t);
        assert_eq!(rotation, turn);
        assert_eq!(rotation.combine(translation), m);
        let p = point(1, 2, 3, 1);
        assert_eq!(translation.transform(p), point(7, 0, 13, 1));
        assert_eq!(rotation.transform(p), turn.transform(p));
    }
}

#[test]
fn law_transform_keeps_distances() {
    let m = half_turn_about(0, 0, 1).combine(shift(6, -2, 10));
    let p = point(1, 2, 3, 1);
    let q = point(4, 6, 3, 1);
    assert_eq!(m.transform(p).dist(m.transform(q)), p.dist(q));
    assert_eq!((m.transform(q) - m.transform(p)).dot(m.transform(q) - m.transform(p)), (q - p).dot(q - p));
}

#[test]
fn law_transform_takes_positions_to_positions() {
    let m = half_turn_about(0, 0, 1).combine(shift(6, -2, 10));
    assert!(m.transform(point(1, 2, 3, 1)).is_finite());
    assert!(!m.transform(point(1, 2, 3, 0)).is_finite());
}

#[test]
fn law_built_motors_have_length_one() {
    for m in [
        Motor::identity(),
        half_turn_about(0, 1, 0),
        shift(3, -5, 7),
        half_turn_about(0, 1, 0).combine(shift(2, 4, 6)),
        Motor::from_euler_pos_and_rot(
            whole(2),
            whole(4),
            whole(6),
            Angle::new(whole(1), whole(0)),
            Angle::new(whole(0), whole(1)),
            Angle::new(whole(0), whole(-1)),
        ),
    ] {
        let one = 1048576_i64;
        let v = [m.vx.raw as i64, m.vy.raw as i64, m.vz.raw as i64, m.vw.raw as i64];
        let t = [m.mx.raw as i64, m.my.raw as i64, m.mz.raw as i64, m.mw.raw as i64];
        assert_eq!(v.iter().map(|c| c * c).sum::<i64>(), one * one);
        assert_eq!(v.iter().zip(t.iter()).map(|(a, b)| a * b).sum::<i64>(), 0);
    }
}

#[test]
fn law_rounding_costs_less_than_a_unit() {
    // a rotation by a sixth of a turn about the second axis, on the grid
    let sixth = Angle::new(Scalar::from_raw(524288), Scalar::from_raw(908093));
    let m = Motor::from_rotation_around_axis(whole(0), whole(1), whole(0), sixth);
    let p = Point::new_position(whole(1), whole(0), whole(0));
    let image = m.transform(p);
    // exactly: x = 1 - 2 sin^2, z = -2 sin cos, in units of a raw unit cubed
    let s = 524288_i128;
    let c = 908093_i128;
    let one = 1048576_i128;
    let x = one * one * one - 2 * s * s * one;
    let z = -2 * s * c * one;
    let nearest = |n: i128| {
        let q = (2 * n.abs() + one * one) / (2 * one * one);
        if n < 0 {
            -q
        } else {
            q
        }
    };
    assert_eq!(image.x.raw as i128, nearest(x));
    assert_eq!(image.z.raw as i128, nearest(z));
    assert_eq!(image.y.raw, 0);
    assert!(2 * (image.x.raw as i128 * one * one - x).abs() <= one * one);
    assert!(2 * (image.z.raw as i128 * one * one - z).abs() <= one * one);
}

#[test]
fn law_inverse_undoes_to_within_two_raw_units() {
    // a third of a turn about (1, 1, 1): all four coordinates a half
    let half = Scalar::from_raw(524288);
    let zero = Scalar::zero();
    let third = Motor::new(half, half, half, half, zero, zero, zero, zero);
    assert_eq!(third.transform(point(1, 0, 0, 1)), point(0, 1, 0, 1));
    let m = third.combine(shift(3, -5, 7));
    for raw in [[1, 2, 3], [1234567, -7654321, 555], [-99999999, 31, 100000001]] {
        let p = Point::new(
            Scalar::from_raw(raw[0]),
            Scalar::from_raw(raw[1]),
            Scalar::from_raw(raw[2]),
            Scalar::one(),
        );
        for back in [
            m.inverse().transform(m.transform(p)),
            m.transform(m.inverse().transform(p)),
        ] {
            assert!((back.x.raw - p.x.raw).abs() <= 2);
            assert!((back.y.raw - p.y.raw).abs() <= 2);
            assert!((back.z.raw - p.z.raw).abs() <= 2);
            assert_eq!(back.w, p.w);
        }
    }
}

#[test]
fn law_stored_values_are_valid() {
    let least = Scalar { raw: i32::MIN };
    let p = Point::new(least, least, least, least);
    let m = Motor::new(least, least, least, least, least, least, least, least);
    let l = p.join(Point::new(least, whole(1), least, whole(1)));
    for s in [l.vx, l.vy, l.vz, l.mx, l.my, l.mz] {
        assert!(s.raw >= -i32::MAX);
    }
    let c = m.combine(m);
    for s in [c.vx, c.vy, c.vz, c.vw, c.mx, c.my, c.mz, c.mw] {
        assert!(s.raw >= -i32::MAX);
    }
    let i = m.inverse();
    for s in [i.vx, i.vy, i.vz, i.mx, i.my, i.mz] {
        assert_eq!(s.raw, i32::MAX);
    }
    let t = m.transform(p);
    for s in [t.x, t.y, t.z] {
        assert!(s.raw >= -i32::MAX);
    }
}

#[test]
fn law_identity_is_neutral_for_valid_motors() {
    let m = Motor::new(
        Scalar::from_raw(i32::MAX),
        Scalar::from_raw(-i32::MAX),
        Scalar::from_raw(i32::MIN),
        Scalar::from_raw(1),
        Scalar::from_raw(-1),
        Scalar::from_raw(0),
        Scalar::from_raw(123456789),
        Scalar::from_raw(-987654321),
    );
    assert_eq!(m.combine(Motor::identity()), m);
    assert_eq!(Motor::identity().combine(m), m);
    assert_eq!(m.inverse().inverse(), m);
    let p = Point::new(
        Scalar::from_raw(i32::MAX),
        Scalar::from_raw(-i32::MAX),
        Scalar::from_raw(7),
        Scalar::from_raw(3),
    );
    assert_eq!(Motor::identity().transform(p), p);
}
