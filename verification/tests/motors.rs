use hydrolox_pga3d::angle::Angle;
use hydrolox_pga3d::motor::Motor;
use hydrolox_pga3d::point::Point;
use hydrolox_pga3d::scalar::Scalar;

use std::f64::consts::PI;

fn scalar(v: f64) -> Scalar {
    Scalar::from_raw((v * 1048576.0).round() as i32)
}

fn number(s: Scalar) -> f64 {
    s.raw as f64 / 1048576.0
}

fn angle(radians: f64) -> Angle {
    Angle::new(scalar((radians * 0.5).sin()), scalar((radians * 0.5).cos()))
}

fn position(x: f64, y: f64, z: f64) -> Point {
    Point::new_position(scalar(x), scalar(y), scalar(z))
}

fn translation(x: f64, y: f64, z: f64) -> Motor {
    Motor::from_translation(scalar(x), scalar(y), scalar(z))
}

fn rotation(x: f64, y: f64, z: f64, radians: f64) -> Motor {
    Motor::from_rotation_around_axis(scalar(x), scalar(y), scalar(z), angle(radians))
}

fn is_close(a: Point, b: Point) -> bool {
    let tolerance = 0.0001;
    (number(a.x) - number(b.x)).abs() < tolerance
        && (number(a.y) - number(b.y)).abs() < tolerance
        && (number(a.z) - number(b.z)).abs() < tolerance
        && (number(a.w) - number(b.w)).abs() < tolerance
}

trait Close {
    fn is_close_to(self, other: Point) -> bool;
}

impl Close for Point {
    fn is_close_to(self, other: Point) -> bool {
        is_close(self, other)
    }
}

#[test]
fn motor_translate() {
    let move_two_right = translation(2.0, 0.0, 0.0);
    let two_right = Point::new(scalar(2.0), scalar(0.0), scalar(0.0), scalar(1.0));
    let should_be_same = move_two_right.transform(Point::zero());

    assert!(two_right.is_close_to(should_be_same));
}

#[test]
fn motor_rotate() {
    let yaw_90_deg = rotation(0.0, 1.0, 0.0, PI * 0.5);
    let one_fwd_one_down = Point::new(scalar(0.0), scalar(-1.0), scalar(-1.0), scalar(1.0));
    let should_be_same =
        yaw_90_deg.transform(Point::new(scalar(1.0), scalar(-1.0), scalar(0.0), scalar(1.0)));

    assert!(one_fwd_one_down.is_close_to(should_be_same));
}

#[test]
fn motor_combine() {
    let move_two_right = translation(2.0, 0.0, 0.0);
    let move_two_forward = translation(0.0, 0.0, -2.0);
    let yaw_270_deg = rotation(0.0, 1.0, 0.0, PI * 1.5);
    let should_be_same = move_two_forward.combine(yaw_270_deg);

    let p1 = move_two_right.transform(Point::default());
    let p2 = should_be_same.transform(Point::default());

    assert!(p1.is_close_to(p2));
}

#[test]
fn motor_combination_bug() {
    let translate = translation(-1.0, -1.0, -1.0);
    println!("translate: {:#?}\n", translate);
    let rotate = rotation(0.0, 1.0, 0.0, -PI * 0.5);
    println!("rotate: {:#?}\n", rotate);

    let motor = translate.combine(rotate);
    println!("final motor: {:#?}\n", motor);

    let separate_point = rotate.transform(translate.transform(Point::forward()));
    println!("separate point: {:#?}\n", separate_point);
    let combined_point = motor.transform(Point::forward());
    println!("combined point: {:#?}\n", combined_point);

    assert!(
        separate_point.is_close_to(position(2.0, -1.0, -1.0)),
        "Separated motors"
    );
    assert!(
        combined_point.is_close_to(position(2.0, -1.0, -1.0)),
        "Combined motors"
    );
}

#[test]
fn motor_inverse() {
    //Camera is right, up, and back, and is angled 45 degrees to the left
    let camera = rotation(0.0, 1.0, 0.0, PI * 0.25).combine(translation(1.0, 1.0, 1.0));
    assert!(
        camera
            .transform(Point::zero())
            .is_close_to(position(1.0, 1.0, 1.0)),
        "Sanity check"
    );

    let point = position(0.0, 1.0, 0.0);

    assert!(camera
        .inverse()
        .transform(point)
        .is_close_to(position(0.0, 0.0, -(2.0_f64).sqrt())));
}

#[test]
fn motor_from_euler_angles() {
    let x = (30.0_f64).to_radians();
    let y = (60.0_f64).to_radians();
    let z = (45.0_f64).to_radians();
    let motor = Motor::from_euler_angles(angle(x), angle(y), angle(z));
    let separate_rots = rotation(0.0, 0.0, 1.0, z)
        .combine(rotation(1.0, 0.0, 0.0, x))
        .combine(rotation(0.0, 1.0, 0.0, y));

    let point = position(2.0, 3.0, 4.0);

    assert!(motor
        .transform(point)
        .is_close_to(separate_rots.transform(point)));
}

#[test]
fn motor_from_pos_rot() {
    let rot_x = (50.0_f64).to_radians();
    let rot_y = (35.0_f64).to_radians();
    let rot_z = (80.0_f64).to_radians();
    let pos_x = 7.0;
    let pos_y = 3.5;
    let pos_z = 4.0;

    let motor = Motor::from_euler_pos_and_rot(
        scalar(pos_x),
        scalar(pos_y),
        scalar(pos_z),
        angle(rot_x),
        angle(rot_y),
        angle(rot_z),
    );
    let separate_motors = rotation(0.0, 0.0, 1.0, rot_z)
        .combine(rotation(1.0, 0.0, 0.0, rot_x))
        .combine(rotation(0.0, 1.0, 0.0, rot_y))
        .combine(translation(pos_x, pos_y, pos_z));

    let point = position(1.0, 0.5, 2.0);

    assert!(motor
        .transform(point)
        .is_close_to(separate_motors.transform(point)));
}

#[test]
fn motor_translation_euler() {
    let motor = Motor::from_euler_pos_and_rot(
        scalar(1.0),
        scalar(2.0),
        scalar(3.0),
        angle(2.0),
        angle(0.7),
        angle(5.0),
    );

    assert!(position(1.0, 2.0, 3.0).is_close_to(motor.translation_euler()));
}

#[test]
fn motor_factorize() {
    let motor = Motor::from_euler_pos_and_rot(
        scalar(3.0),
        scalar(2.0),
        scalar(1.0),
        angle(2.5),
        angle(3.0),
        angle(4.0),
    );
    let (translation, rotation) = motor.factorize();

    let point = position(0.5, 0.3, 0.7);

    assert!(translation
        .transform(point)
        .is_close_to(position(3.5, 2.3, 1.7)));
    assert!(rotation
        .transform(point)
        .is_close_to(Motor::from_euler_angles(angle(2.5), angle(3.0), angle(4.0)).transform(point)));
    assert!(motor
        .transform(point)
        .is_close_to(rotation.combine(translation).transform(point)));
}
