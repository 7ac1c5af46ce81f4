use fractal_zoom::clock::ClockError;
use fractal_zoom::clock::Timestamp;
use fractal_zoom::complex::Cpx;
use fractal_zoom::direction::ButtonState;
use fractal_zoom::direction::MoveDirection;
use fractal_zoom::direction::RotateDirection;
use fractal_zoom::direction::ZoomDirection;
use fractal_zoom::fx::Fx;
use fractal_zoom::view::GlobalUniforms;
use fractal_zoom::view::InitView;
use fractal_zoom::view::View;
use fractal_zoom::view::WinSize;
use fractal_zoom::view::MAX_ITERATIONS;
use fractal_zoom::zoom::LOG_ZOOM_MIN_BITS;

fn vfx(x: f64) -> Fx {
    Fx::from_bits((x * 4294967296.0).round() as i64)
}

fn vf(x: Fx) -> f64 {
    x.bits as f64 / 4294967296.0
}

fn vcq(re: f64, im: f64) -> Cpx {
    Cpx::new(vfx(re), vfx(im))
}

fn vticks(seconds: f64) -> Timestamp {
    Timestamp::from_ticks((seconds * 4294967296.0).round() as i64)
}

fn window() -> WinSize {
    WinSize { width: 800, height: 600 }
}

fn plain_view() -> View {
    let init = InitView { exp: vcq(2.0, 0.0), ..InitView::default() };
    View::new(init, window(), vticks(0.0))
}

#[test]
fn view_new_seeds_from_descriptor() {
    let init = InitView {
        pivot: vcq(1.0, 2.0),
        center: vcq(-0.5, 0.25),
        shift: vcq(1.0, 0.0),
        exp: vcq(2.0, 0.0),
    };
    let v = View::new(init, window(), vticks(0.0));
    assert_eq!(v.win_center, vcq(1.0, 2.0));
    assert_eq!(v.center.pos, vcq(-0.5, 0.25));
    // The stored exponent control is the arc tangent of the descriptor
    // value, undone by the tangent in the snapshot.
    assert!((vf(v.exp.pos.re) - 2.0f64.atan()).abs() < 1e-4);
    assert!((vf(v.shift.pos.re) - 1.0f64.atan()).abs() < 1e-4);
    assert_eq!(v.zoom.pos.bits, LOG_ZOOM_MIN_BITS);
    assert_eq!(v.rot.pos, vfx(0.0));
    assert!(v.reverse);
    assert_eq!(v.mouse_pos, None);
}

#[test]
fn view_uniforms_reports_the_linear_zoom_and_tangents() {
    let v = plain_view();
    let u: GlobalUniforms = v.uniforms(vticks(1.5));
    assert_eq!(u.time, vfx(1.5));
    assert_eq!(u.max_iterations, MAX_ITERATIONS);
    assert_eq!(u.window_size, window());
    assert_eq!(u.center, v.center.pos);
    assert_eq!(u.rot, v.rot.pos);
    // The zoom leaves the log domain: exp(ln 100) is about 100.
    assert!((vf(u.zoom) - 100.0).abs() < 0.01);
    // The exponent comes back through the tangent: tan(atan(2)) is 2.
    assert!((vf(u.exp.re) - 2.0).abs() < 1e-3);
    assert!(vf(u.exp.im).abs() < 1e-3);
    assert!(vf(u.shift.re).abs() < 1e-3);
}

#[test]
fn view_update_integrates_an_accelerated_center() {
    let mut v = plain_view();
    v.reverse(ButtonState::Pressed);
    assert!(!v.reverse);
    v.accel_center(Some(MoveDirection::Right));
    v.update(vticks(1.0)).unwrap();
    // One second folds the unit acceleration into the velocity and
    // moves the center by it; the pivot sits at the origin, so the
    // zoom compensation adds nothing.
    assert_eq!(v.center.vel, vcq(1.0, 0.0));
    assert_eq!(v.center.pos, vcq(1.0, 0.0));
    v.accel_center(None);
    assert_eq!(v.center.vel, vcq(0.0, 0.0));
}

#[test]
fn view_update_keeps_held_rotation_anchored() {
    let mut v = plain_view();
    v.reverse(ButtonState::Pressed);
    v.update_mouse_pos(vcq(500.0, 300.0));
    v.recenter();
    assert_eq!(v.win_center, vcq(100.0, 0.0));
    v.rotate(RotateDirection::Right, ButtonState::Pressed);
    v.update(vticks(1.0)).unwrap();
    let speed = 2.0 * std::f64::consts::PI / 1000.0;
    assert!((vf(v.rot.pos) - speed).abs() < 1e-6);
    // The pivot turned backward by the angle the plane gained.
    assert!((vf(v.win_center.re) - 100.0 * speed.cos()).abs() < 0.05);
    assert!((vf(v.win_center.im) + 100.0 * speed.sin()).abs() < 0.05);
}

#[test]
fn view_update_zoom_key_grows_the_scale() {
    let mut v = plain_view();
    v.reverse(ButtonState::Pressed);
    v.move_zoom(ZoomDirection::Inwards, ButtonState::Pressed);
    v.update(vticks(1.0)).unwrap();
    assert!(v.zoom.pos.bits > LOG_ZOOM_MIN_BITS);
    let expected = 0.995f64.ln().abs();
    assert!((vf(v.zoom.pos) - (100.0f64.ln() + expected)).abs() < 1e-4);
}

#[test]
fn view_update_clock_error_moves_only_the_clocks() {
    let mut v = plain_view();
    let before = v;
    let r = v.update(vticks(-1.0));
    assert_eq!(r, Err(ClockError));
    assert_eq!(v.center.pos, before.center.pos);
    assert_eq!(v.zoom.pos, before.zoom.pos);
    assert_eq!(v.rot.pos, before.rot.pos);
    assert_eq!(v.win_center, before.win_center);
    assert_eq!(v.zoom.t, vticks(-1.0));
    assert_eq!(v.center.t, vticks(-1.0));
}

#[test]
fn view_pointer_is_window_center_relative() {
    let mut v = plain_view();
    v.update_mouse_pos(vcq(400.0, 300.0));
    assert_eq!(v.mouse_pos, Some(vcq(0.0, 0.0)));
    v.update_mouse_pos(vcq(0.0, 0.0));
    assert_eq!(v.mouse_pos, Some(vcq(-400.0, -300.0)));
    v.resize(WinSize { width: 0, height: 0 });
    v.update_mouse_pos(vcq(10.0, 10.0));
    assert_eq!(v.mouse_pos, None);
    v.recenter();
    assert_eq!(v.win_center, vcq(0.0, 0.0));
}

#[test]
fn view_reverse_toggles_on_press_only() {
    let mut v = plain_view();
    assert!(v.reverse);
    v.reverse(ButtonState::Released);
    assert!(v.reverse);
    v.reverse(ButtonState::Pressed);
    assert!(!v.reverse);
    v.reverse(ButtonState::Pressed);
    assert!(v.reverse);
}

#[test]
fn view_reset_keeps_the_window_size() {
    let mut v = plain_view();
    v.resize(WinSize { width: 1024, height: 768 });
    v.accel_center(Some(MoveDirection::Up));
    v.update(vticks(2.0)).unwrap();
    v.reset(InitView::default(), vticks(2.0));
    assert_eq!(v.win_size(), WinSize { width: 1024, height: 768 });
    assert_eq!(v.center.pos, vcq(0.0, 0.0));
    assert_eq!(v.zoom.pos.bits, LOG_ZOOM_MIN_BITS);
    assert_eq!(v.t0, vticks(2.0));
}

#[test]
fn view_reset_time_restarts_the_snapshot_clock() {
    let mut v = plain_view();
    v.reset_time(vticks(5.0));
    let u = v.uniforms(vticks(6.25));
    assert_eq!(u.time, vfx(1.25));
}

#[test]
fn view_move_keys_reach_their_controllers() {
    let mut v = plain_view();
    v.move_center(MoveDirection::Up, ButtonState::Pressed);
    assert_eq!(v.center.mov_y, Some(true));
    v.move_center(MoveDirection::Up, ButtonState::Released);
    assert_eq!(v.center.mov_y, None);
    v.move_shift(MoveDirection::Left, ButtonState::Pressed);
    assert_eq!(v.shift.mov_x, Some(false));
    v.move_exp(MoveDirection::Down, ButtonState::Pressed);
    assert_eq!(v.exp.mov_y, Some(false));
    v.accel_rot(Some(RotateDirection::Left));
    assert_eq!(v.rot.acc, vfx(-1.0));
    v.accel_rot(None);
    assert_eq!(v.rot.acc, vfx(0.0));
    v.accel_zoom(Some(ZoomDirection::Inwards), Some(vfx(2.0)));
    assert_eq!(v.zoom.acc, vfx(2.0).mul(vfx(0.995f64.ln())));
    v.accel_zoom(None, None);
    assert_eq!(v.zoom.acc, vfx(0.0));
}

#[test]
fn view_stopped_frame_moves_nothing() {
    let mut v = plain_view();
    let before = v;
    v.update(vticks(3.0)).unwrap();
    assert_eq!(v.center.pos, before.center.pos);
    assert_eq!(v.shift.pos, before.shift.pos);
    assert_eq!(v.exp.pos, before.exp.pos);
    assert_eq!(v.rot.pos, before.rot.pos);
    assert_eq!(v.zoom.pos, before.zoom.pos);
    assert_eq!(v.win_center, before.win_center);
}

#[test]
fn view_reverse_flips_zoom_direction() {
    let mut v = plain_view();
    assert!(v.reverse);
    v.move_zoom(ZoomDirection::Inwards, ButtonState::Pressed);
    v.update(vticks(1.0)).unwrap();
    // Reversed, the same held key walks the log scale the other way.
    assert!(v.zoom.pos.bits < LOG_ZOOM_MIN_BITS);
}

#[test]
fn view_reset_keeps_held_flags_and_reverse() {
    let mut v = plain_view();
    v.reverse(ButtonState::Pressed);
    assert!(!v.reverse);
    v.move_center(MoveDirection::Right, ButtonState::Pressed);
    v.move_shift(MoveDirection::Up, ButtonState::Pressed);
    v.move_exp(MoveDirection::Left, ButtonState::Pressed);
    v.rotate(RotateDirection::Right, ButtonState::Pressed);
    v.move_zoom(ZoomDirection::Outwards, ButtonState::Pressed);
    v.accel_center(Some(MoveDirection::Right));
    v.update(vticks(1.0)).unwrap();
    v.reset(InitView::default(), vticks(1.0));
    // A reset is partial: the discrete key state and the reverse flag
    // outlive it, while all motion and positions start over.
    assert!(!v.reverse);
    assert_eq!(v.center.mov_x, Some(true));
    assert_eq!(v.shift.mov_y, Some(true));
    assert_eq!(v.exp.mov_x, Some(false));
    assert_eq!(v.rot.mov, Some(true));
    assert_eq!(v.zoom.mov, Some(false));
    assert_eq!(v.center.pos, vcq(0.0, 0.0));
    assert_eq!(v.center.vel, vcq(0.0, 0.0));
    assert_eq!(v.center.acc, vcq(0.0, 0.0));
    assert_eq!(v.zoom.pos.bits, LOG_ZOOM_MIN_BITS);
    assert_eq!(v.rot.pos, vfx(0.0));
    assert_eq!(v.win_center, vcq(0.0, 0.0));
    assert_eq!(v.t0, vticks(1.0));
}
