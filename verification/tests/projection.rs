use framecomp::camera::{transform, Affine, Camera, ScreenPoint, Vec3r};
use framecomp::ratio::Ratio;

fn camera_4_3() -> Camera {
    Camera { view: Affine::identity(), aspect: Ratio { num: 4, den: 3 } }
}

fn as_f64(num: i128, den: i128) -> f64 {
    num as f64 / den as f64
}

#[test]
fn origin_projects_to_screen_centre() {
    let cam = camera_4_3();
    let s = cam.project_point(&Vec3r::origin(), 800, 600);
    // exactly (400, 300), the centre of an 800x600 screen
    assert_eq!(s.x * 1, 400 * s.den);
    assert_eq!(s.y * 1, 300 * s.den);
}

#[test]
fn point_on_view_axis_projects_to_centre() {
    let cam = camera_4_3();
    let p = Vec3r { x: 0, y: 0, z: 5, den: 1 };
    let s = cam.project_point(&p, 1024, 768);
    assert_eq!(s.x, 512 * s.den);
    assert_eq!(s.y, 384 * s.den);
}

#[test]
fn projection_matches_reference_arithmetic() {
    let cam = camera_4_3();
    let p = Vec3r { x: 1, y: 1, z: 2, den: 1 };
    let s = cam.project_point(&p, 800, 600);
    let focal = 1.732051_f64;
    let aspect = 4.0 / 3.0;
    let clip_x = focal / aspect * (1.0 / 2.0);
    let clip_y = focal * (1.0 / 2.0);
    let expect_x = (clip_x + 1.0) / 2.0 * 800.0;
    let expect_y = (1.0 - clip_y) / 2.0 * 600.0;
    assert!((as_f64(s.x, s.den) - expect_x).abs() < 1e-6);
    assert!((as_f64(s.y, s.den) - expect_y).abs() < 1e-6);
}

#[test]
fn project_inverts_unproject_exactly() {
    let cam = camera_4_3();
    let screen = ScreenPoint { x: 100, y: 50, den: 1 };
    let depth = Ratio::new(2, 1);
    let p = cam.unproject_point(&screen, depth, 800, 600);
    // the unprojected point lies at the requested depth
    assert_eq!(p.z * depth.den, depth.num * p.den);
    let back = cam.project_point(&p, 800, 600);
    assert_eq!(back.x * screen.den, screen.x * back.den);
    assert_eq!(back.y * screen.den, screen.y * back.den);
}

#[test]
fn round_trip_keeps_an_off_centre_point() {
    let cam = camera_4_3();
    let screen = ScreenPoint { x: 799, y: 1, den: 1 };
    let depth = Ratio::new(7, 3);
    let p = cam.unproject_point(&screen, depth, 800, 600);
    let back = cam.project_point(&p, 800, 600);
    assert_eq!(back.x * screen.den, screen.x * back.den);
    assert_eq!(back.y * screen.den, screen.y * back.den);
}

#[test]
fn view_transform_applies_rotation_and_translation() {
    // quarter turn about the vertical axis plus a unit shift along the
    // remaining axis: (x, y, z) -> (z, y, -x + 1)
    let v = Affine {
        m00: 0,
        m01: 0,
        m02: 1,
        m03: 0,
        m10: 0,
        m11: 1,
        m12: 0,
        m13: 0,
        m20: -1,
        m21: 0,
        m22: 0,
        m23: 1,
        den: 1,
    };
    let p = Vec3r { x: 3, y: 4, z: 5, den: 1 };
    let q = transform(&v, &p);
    assert_eq!(q.x, 5);
    assert_eq!(q.y, 4);
    assert_eq!(q.z, -2);
    assert_eq!(q.den, 1);
}

#[test]
fn identity_view_keeps_points() {
    let p = Vec3r { x: 3, y: -4, z: 5, den: 2 };
    let q = transform(&Affine::identity(), &p);
    assert_eq!(q.x, 3);
    assert_eq!(q.y, -4);
    assert_eq!(q.z, 5);
    assert_eq!(q.den, 2);
}
