use cubo::camera::{uniform_input, Camera, Vec3i};

#[test]
fn new_camera_has_fixed_configuration() {
    let cam = Camera::new(800, 600);
    assert_eq!(cam.eye, Vec3i { x: 0, y: 0, z: 3 });
    assert_eq!(cam.target, Vec3i { x: 0, y: 0, z: 0 });
    assert_eq!(cam.up, Vec3i { x: 0, y: 1, z: 0 });
    assert_eq!(cam.aspect_width, 800);
    assert_eq!(cam.aspect_height, 600);
    assert_eq!(cam.fovy_degrees, 45);
    assert_eq!(cam.znear_milli, 100);
    assert_eq!(cam.zfar_milli, 100000);
}

#[test]
fn resize_updates_aspect_exactly() {
    let mut cam = Camera::new(800, 600);
    cam.resize(1024, 768);
    assert_eq!(cam.aspect_width, 1024);
    assert_eq!(cam.aspect_height, 768);
    // Every other field is untouched.
    assert_eq!(cam.eye, Vec3i { x: 0, y: 0, z: 3 });
    assert_eq!(cam.fovy_degrees, 45);
}

#[test]
fn resize_with_zero_width_is_ignored() {
    let mut cam = Camera::new(800, 600);
    cam.resize(0, 480);
    assert_eq!(cam.aspect_width, 800);
    assert_eq!(cam.aspect_height, 600);
}

#[test]
fn resize_with_zero_height_is_ignored() {
    let mut cam = Camera::new(800, 600);
    cam.resize(640, 0);
    assert_eq!(cam.aspect_width, 800);
    assert_eq!(cam.aspect_height, 600);
}

#[test]
fn uniform_input_is_deterministic() {
    let cam = Camera::new(800, 600);
    let first = uniform_input(&cam, 123456789);
    let second = uniform_input(&cam, 123456789);
    assert_eq!(first, second);
}

#[test]
fn rotation_rates_are_half_and_three_tenths() {
    let cam = Camera::new(800, 600);
    // After 2 seconds: 0.5 rad/s gives 1 rad, 0.3 rad/s gives 0.6 rad.
    let u = uniform_input(&cam, 2000);
    assert_eq!(u.angle_y_microrad, 1_000_000);
    assert_eq!(u.angle_x_microrad, 600_000);
    // One millisecond contributes exactly 500 and 300 microradians.
    let v = uniform_input(&cam, 1);
    assert_eq!(v.angle_y_microrad, 500);
    assert_eq!(v.angle_x_microrad, 300);
    let w = uniform_input(&cam, 0);
    assert_eq!(w.angle_y_microrad, 0);
    assert_eq!(w.angle_x_microrad, 0);
}

#[test]
fn uniform_input_carries_the_camera() {
    let mut cam = Camera::new(800, 600);
    cam.resize(1920, 1080);
    let u = uniform_input(&cam, 42);
    assert_eq!(u.camera, cam);
}
