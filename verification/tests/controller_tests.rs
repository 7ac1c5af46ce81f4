use fractal_zoom::axis::CoordControl;
use fractal_zoom::clock::ClockError;
use fractal_zoom::clock::Timestamp;
use fractal_zoom::complex::Cpx;
use fractal_zoom::direction::ButtonState;
use fractal_zoom::direction::MoveDirection;
use fractal_zoom::direction::RotateDirection;
use fractal_zoom::direction::ZoomDirection;
use fractal_zoom::fx::Fx;
use fractal_zoom::rotation::wrap_angle;
use fractal_zoom::rotation::RotControl;
use fractal_zoom::rotation::TAU_BITS;
use fractal_zoom::zoom::ZoomControl;
use fractal_zoom::zoom::LOG_ZOOM_MAX_BITS;
use fractal_zoom::zoom::LOG_ZOOM_MIN_BITS;

fn fxq(x: f64) -> Fx {
    Fx::from_bits((x * 4294967296.0).round() as i64)
}

fn fq(x: Fx) -> f64 {
    x.bits as f64 / 4294967296.0
}

fn cq(re: f64, im: f64) -> Cpx {
    Cpx::new(fxq(re), fxq(im))
}

fn ticks(seconds: f64) -> Timestamp {
    Timestamp::from_ticks((seconds * 4294967296.0).round() as i64)
}

#[test]
fn fx_arithmetic_is_exact() {
    assert_eq!(fxq(1.5).mul(fxq(2.0)), fxq(3.0));
    assert_eq!(fxq(10.0).add(fxq(-4.5)), fxq(5.5));
    assert_eq!(fxq(1.0).div(fxq(4.0)), fxq(0.25));
    assert_eq!(fxq(-2.0).neg(), fxq(2.0));
    assert_eq!(fxq(-2.0).abs(), fxq(2.0));
    assert_eq!(fxq(4.0).sqrt(), fxq(2.0));
    assert_eq!(fxq(0.0).sqrt(), fxq(0.0));
}

#[test]
fn fx_saturates_at_the_ends() {
    let top = Fx::from_bits(i64::MAX);
    assert_eq!(top.add(Fx::one()).bits, i64::MAX);
    let bottom = Fx::from_bits(i64::MIN);
    assert_eq!(bottom.sub(Fx::one()).bits, i64::MIN);
    assert_eq!(bottom.neg().bits, i64::MAX);
}

#[test]
fn complex_mul_and_rot270() {
    let i = cq(0.0, 1.0);
    assert_eq!(i.mul(i), cq(-1.0, 0.0));
    assert_eq!(cq(3.0, 4.0).rot270(), cq(4.0, -3.0));
    assert_eq!(cq(1.0, 2.0).mul(cq(3.0, 4.0)), cq(-5.0, 10.0));
}

#[test]
fn direction_axes_and_signs() {
    assert!(MoveDirection::Up.axis());
    assert!(MoveDirection::Down.axis());
    assert!(!MoveDirection::Left.axis());
    assert!(!MoveDirection::Right.axis());
    assert!(MoveDirection::Up.forward());
    assert!(MoveDirection::Right.forward());
    assert!(!MoveDirection::Down.forward());
    assert!(!MoveDirection::Left.forward());
    assert!(RotateDirection::Right.forward());
    assert!(!RotateDirection::Left.forward());
    assert!(ZoomDirection::Inwards.forward());
    assert!(!ZoomDirection::Outwards.forward());
}

#[test]
fn axis_unit_velocity_two_seconds() {
    // position 0, velocity 1+0i, no acceleration, not reversed:
    // after two seconds the position is exactly 2+0i.
    let mut c = CoordControl::new(cq(0.0, 0.0), cq(1.0, 0.0), ticks(0.0));
    c.update(ticks(2.0), cq(0.0, 0.0), fxq(0.0), false).unwrap();
    assert_eq!(c.pos, cq(2.0, 0.0));
    assert_eq!(c.vel, cq(1.0, 0.0));
}

#[test]
fn axis_zero_velocity_holds_still() {
    let mut c = CoordControl::new(cq(3.5, -1.25), cq(0.0, 0.0), ticks(0.0));
    c.update(ticks(7.25), cq(0.0, 0.0), fxq(0.0), false).unwrap();
    assert_eq!(c.pos, cq(3.5, -1.25));
    let mut moving = CoordControl::new(cq(3.5, -1.25), cq(0.5, 0.0), ticks(0.0));
    moving.update(ticks(7.25), cq(0.0, 0.0), fxq(0.0), false).unwrap();
    assert!(moving.pos != cq(3.5, -1.25));
}

#[test]
fn axis_reverse_flips_drift() {
    let mut c = CoordControl::new(cq(0.0, 0.0), cq(1.0, 0.0), ticks(0.0));
    c.update(ticks(2.0), cq(0.0, 0.0), fxq(0.0), true).unwrap();
    assert_eq!(c.pos, cq(-2.0, 0.0));
}

#[test]
fn axis_held_key_moves_on_each_axis() {
    let mut c = CoordControl::new(cq(0.0, 0.0), cq(0.0, 0.0), ticks(0.0));
    c.mov(MoveDirection::Left, ButtonState::Pressed);
    c.update(ticks(1.0), cq(2.0, 0.0), fxq(0.0), false).unwrap();
    // Left is the backward flag on the horizontal axis: the position
    // moves with the speed vector.
    assert_eq!(c.pos, cq(2.0, 0.0));
    c.mov(MoveDirection::Left, ButtonState::Released);
    c.mov(MoveDirection::Up, ButtonState::Pressed);
    c.update(ticks(2.0), cq(2.0, 0.0), fxq(0.0), false).unwrap();
    // Up is forward on the vertical axis, whose nudge is the speed
    // turned a quarter turn: (2, 0) becomes (0, -2), subtracted.
    assert_eq!(c.pos, cq(2.0, 2.0));
}

#[test]
fn axis_push_accelerates_then_update_integrates() {
    let mut c = CoordControl::new(cq(0.0, 0.0), cq(0.0, 0.0), ticks(0.0));
    c.push(Some((MoveDirection::Right, fxq(1.0))));
    assert_eq!(c.acc, cq(1.0, 0.0));
    c.update(ticks(1.0), cq(0.0, 0.0), fxq(0.0), false).unwrap();
    assert_eq!(c.vel, cq(1.0, 0.0));
    assert_eq!(c.pos, cq(1.0, 0.0));
    assert_eq!(c.acc, cq(0.0, 0.0));
}

#[test]
fn axis_rot_flag_spins_position() {
    let mut c = CoordControl::new(cq(1.0, 0.0), cq(0.0, 0.0), ticks(0.0));
    c.rot(RotateDirection::Right, ButtonState::Pressed);
    let quarter = std::f64::consts::FRAC_PI_2;
    c.update(ticks(0.0), cq(0.0, 0.0), fxq(quarter), false).unwrap();
    assert!(fq(c.pos.re).abs() < 1e-3);
    assert!((fq(c.pos.im) - 1.0).abs() < 1e-3);
}

#[test]
fn axis_stop_then_update_is_a_no_op() {
    let mut c = CoordControl::new(cq(2.0, 3.0), cq(5.0, -1.0), ticks(0.0));
    c.push(Some((MoveDirection::Up, fxq(4.0))));
    c.stop();
    assert_eq!(c.vel, cq(0.0, 0.0));
    assert_eq!(c.acc, cq(0.0, 0.0));
    assert_eq!(c.pos, cq(2.0, 3.0));
    c.update(ticks(9.0), cq(0.0, 0.0), fxq(0.0), false).unwrap();
    assert_eq!(c.pos, cq(2.0, 3.0));
}

#[test]
fn axis_push_none_stops() {
    let mut c = CoordControl::new(cq(1.0, 1.0), cq(2.0, 2.0), ticks(0.0));
    c.push(None);
    assert_eq!(c.vel, cq(0.0, 0.0));
    assert_eq!(c.acc, cq(0.0, 0.0));
    assert_eq!(c.pos, cq(1.0, 1.0));
}

#[test]
fn axis_reset_restores_default_but_held_flags() {
    let mut c = CoordControl::new(cq(1.0, 1.0), cq(2.0, 2.0), ticks(5.0));
    c.mov(MoveDirection::Right, ButtonState::Pressed);
    c.rot(RotateDirection::Left, ButtonState::Pressed);
    c.reset();
    let d = CoordControl::default();
    assert_eq!(c.pos, d.pos);
    assert_eq!(c.vel, d.vel);
    assert_eq!(c.acc, d.acc);
    assert_eq!(c.mov_x, Some(true));
    assert_eq!(c.rot, Some(false));
    assert_eq!(c.t, ticks(5.0));
}

#[test]
fn axis_clock_error_on_backward_time() {
    let mut c = CoordControl::new(cq(1.0, 0.0), cq(1.0, 0.0), ticks(2.0));
    let r = c.update(ticks(1.0), cq(0.0, 0.0), fxq(0.0), false);
    assert_eq!(r, Err(ClockError));
    assert_eq!(c.pos, cq(1.0, 0.0));
    assert_eq!(c.vel, cq(1.0, 0.0));
    assert_eq!(c.t, ticks(1.0));
}

#[test]
fn rot_held_key_advances_by_pi() {
    // angle 0, held forward, speed pi, one second: the angle advances
    // by exactly pi, and a pivot at (1, 0) turns to about (-1, 0).
    let mut r = RotControl::new(fxq(0.0), fxq(0.0), ticks(0.0));
    r.rot(RotateDirection::Right, ButtonState::Pressed);
    let mut pivot = cq(1.0, 0.0);
    r.update(ticks(1.0), fxq(std::f64::consts::PI), false, &mut pivot).unwrap();
    assert_eq!(r.pos, fxq(std::f64::consts::PI));
    assert!((fq(pivot.re) + 1.0).abs() < 1e-3);
    assert!(fq(pivot.im).abs() < 1e-3);
}

#[test]
fn rot_velocity_integrates_exactly() {
    let mut r = RotControl::new(fxq(0.25), fxq(0.5), ticks(0.0));
    let mut pivot = cq(0.0, 0.0);
    r.update(ticks(3.0), fxq(0.0), false, &mut pivot).unwrap();
    assert_eq!(r.pos, fxq(1.75));
    let mut back = RotControl::new(fxq(0.25), fxq(0.5), ticks(0.0));
    back.update(ticks(3.0), fxq(0.0), true, &mut pivot).unwrap();
    assert_eq!(back.pos, fxq(-1.25));
}

#[test]
fn rot_wrap_angle_is_congruent_mod_tau() {
    let raw = fxq(3.0 * std::f64::consts::PI);
    let wrapped = wrap_angle(raw);
    assert!(wrapped.bits >= 0 && wrapped.bits < TAU_BITS);
    assert_eq!((raw.bits - wrapped.bits) % TAU_BITS, 0);
    let negative = fxq(-1.0);
    let wrapped_neg = wrap_angle(negative);
    assert!(wrapped_neg.bits >= 0 && wrapped_neg.bits < TAU_BITS);
    assert_eq!((negative.bits - wrapped_neg.bits) % TAU_BITS, 0);
    assert!((fq(wrapped_neg) - (2.0 * std::f64::consts::PI - 1.0)).abs() < 1e-6);
}

#[test]
fn rot_stop_then_update_is_a_no_op() {
    let mut r = RotControl::new(fxq(1.0), fxq(2.0), ticks(0.0));
    r.push(Some((RotateDirection::Right, fxq(3.0))));
    r.stop();
    let mut pivot = cq(1.0, 0.0);
    r.update(ticks(5.0), fxq(0.0), false, &mut pivot).unwrap();
    assert_eq!(r.pos, fxq(1.0));
    assert_eq!(pivot, cq(1.0, 0.0));
}

#[test]
fn rot_reset_restores_default_but_held_flag() {
    let mut r = RotControl::new(fxq(1.0), fxq(2.0), ticks(4.0));
    r.rot(RotateDirection::Right, ButtonState::Pressed);
    r.reset();
    let d = RotControl::default();
    assert_eq!(r.pos, d.pos);
    assert_eq!(r.vel, d.vel);
    assert_eq!(r.acc, d.acc);
    assert_eq!(r.mov, Some(true));
    assert_eq!(r.t, ticks(4.0));
}

#[test]
fn rot_from_angle_wraps() {
    let r = RotControl::from_angle(fxq(-1.0), ticks(0.0));
    assert!(r.pos.bits >= 0 && r.pos.bits < TAU_BITS);
    assert!((fq(r.pos) - (2.0 * std::f64::consts::PI - 1.0)).abs() < 1e-6);
}

#[test]
fn rot_clock_error_on_backward_time() {
    let mut r = RotControl::new(fxq(1.0), fxq(1.0), ticks(2.0));
    let mut pivot = cq(1.0, 0.0);
    let e = r.update(ticks(1.5), fxq(0.0), false, &mut pivot);
    assert_eq!(e, Err(ClockError));
    assert_eq!(r.pos, fxq(1.0));
    assert_eq!(pivot, cq(1.0, 0.0));
}

#[test]
fn zoom_doubles_under_log_two_throttle() {
    // scale 100, neutral velocity, no brake, acceleration ln 2 with a
    // unit coupling: after one second the velocity is the factor 2 and
    // the scale 100 * 2 = 200.
    let ln2 = std::f64::consts::LN_2;
    let mut z = ZoomControl {
        t: ticks(0.0),
        pos: fxq(100.0f64.ln()),
        vel: fxq(0.0),
        acc: fxq(ln2),
        brk: fxq(0.0),
        mov: None,
        base: fxq(1.0),
        min: Fx::from_bits(LOG_ZOOM_MIN_BITS),
        max: Fx::from_bits(LOG_ZOOM_MAX_BITS),
    };
    let mut center = CoordControl::default();
    z.update(ticks(1.0), fxq(0.0), false, &mut center, cq(0.0, 0.0), fxq(0.0)).unwrap();
    assert!((fq(z.vel).exp() - 2.0).abs() < 1e-6);
    assert!((fq(z.pos).exp() - 200.0).abs() < 1e-3);
    assert_eq!(z.acc, fxq(0.0));
}

#[test]
fn zoom_bounces_at_the_upper_bound() {
    let mut z = ZoomControl::new(
        Fx::from_bits(LOG_ZOOM_MAX_BITS - fxq(0.5).bits),
        fxq(1.0),
        ticks(0.0),
    );
    let mut center = CoordControl::default();
    z.update(ticks(1.0), fxq(0.0), false, &mut center, cq(0.0, 0.0), fxq(0.0)).unwrap();
    // The step of about 1.0 crosses the bound while growing, so the
    // velocity is reciprocated at exactly this step.
    assert!(z.pos.bits > LOG_ZOOM_MAX_BITS);
    assert!((fq(z.vel) + 1.0).abs() < 1e-4);
    let overshoot = fq(z.pos) - fq(Fx::from_bits(LOG_ZOOM_MAX_BITS));
    assert!(overshoot < 1.0);
}

#[test]
fn zoom_inside_range_does_not_bounce() {
    let mut z = ZoomControl::new(Fx::from_bits(LOG_ZOOM_MIN_BITS + fxq(2.0).bits), fxq(0.25), ticks(0.0));
    let mut center = CoordControl::default();
    z.update(ticks(1.0), fxq(0.0), false, &mut center, cq(0.0, 0.0), fxq(0.0)).unwrap();
    assert!((fq(z.vel) - 0.25).abs() < 1e-4);
}

#[test]
fn zoom_overbrake_snaps_to_neutral() {
    let mut z = ZoomControl {
        t: ticks(0.0),
        pos: fxq(100.0f64.ln()),
        vel: fxq(std::f64::consts::LN_2),
        acc: fxq(0.0),
        brk: fxq(100.0),
        mov: None,
        base: fxq(1.0),
        min: Fx::from_bits(LOG_ZOOM_MIN_BITS),
        max: Fx::from_bits(LOG_ZOOM_MAX_BITS),
    };
    let mut center = CoordControl::default();
    z.update(ticks(1.0), fxq(0.0), false, &mut center, cq(0.0, 0.0), fxq(0.0)).unwrap();
    assert_eq!(z.vel, fxq(0.0));
    assert_eq!(z.brk, fxq(0.0));
}

#[test]
fn zoom_stop_then_update_is_a_no_op() {
    let mut z = ZoomControl::new(fxq(5.0), fxq(0.75), ticks(0.0));
    z.push(Some((ZoomDirection::Inwards, fxq(2.0))));
    z.brk(fxq(1.0));
    z.stop();
    let mut center = CoordControl::default();
    z.update(ticks(4.0), fxq(0.0), false, &mut center, cq(0.0, 0.0), fxq(0.0)).unwrap();
    assert_eq!(z.pos, fxq(5.0));
    assert_eq!(z.vel, fxq(0.0));
}

#[test]
fn zoom_push_and_brake_accumulate() {
    let mut z = ZoomControl::default();
    z.push(Some((ZoomDirection::Inwards, fxq(0.5))));
    z.push(Some((ZoomDirection::Outwards, fxq(0.125))));
    assert_eq!(z.acc, fxq(0.375));
    z.brk(fxq(0.25));
    z.brk(fxq(0.25));
    assert_eq!(z.brk, fxq(0.5));
    z.push(None);
    assert_eq!(z.acc, fxq(0.0));
    assert_eq!(z.brk, fxq(0.0));
}

#[test]
fn zoom_reset_restores_default_but_held_flag() {
    let mut z = ZoomControl::new(fxq(7.0), fxq(0.5), ticks(3.0));
    z.mov(ZoomDirection::Outwards, ButtonState::Pressed);
    z.reset();
    let d = ZoomControl::default();
    assert_eq!(z.pos, d.pos);
    assert_eq!(z.vel, d.vel);
    assert_eq!(z.acc, d.acc);
    assert_eq!(z.brk, d.brk);
    assert_eq!(z.mov, Some(false));
    assert_eq!(z.t, ticks(3.0));
}

#[test]
fn zoom_clock_error_on_backward_time() {
    let mut z = ZoomControl::new(fxq(5.0), fxq(1.0), ticks(2.0));
    let mut center = CoordControl::default();
    let e = z.update(ticks(0.0), fxq(0.0), false, &mut center, cq(0.0, 0.0), fxq(0.0));
    assert_eq!(e, Err(ClockError));
    assert_eq!(z.pos, fxq(5.0));
    assert_eq!(z.vel, fxq(1.0));
    assert_eq!(z.t, ticks(0.0));
}

#[test]
fn timestamp_elapsed_since() {
    assert_eq!(ticks(3.5).elapsed_since(ticks(1.0)), Ok(fxq(2.5)));
    assert_eq!(ticks(1.0).elapsed_since(ticks(3.5)), Err(ClockError));
}

#[test]
fn zoom_at_upper_bound_reports_large_scale() {
    let z = ZoomControl::new(Fx::from_bits(LOG_ZOOM_MAX_BITS), fxq(0.0), ticks(0.0));
    // Round-trip through the snapshot path's exponential: the log of
    // the range's upper bound comes back as the scale 2^23 * 100.
    let top = fq(z.pos).exp();
    assert!((top / 838860800.0 - 1.0).abs() < 1e-3);
}

#[test]
fn rot_huge_step_is_clamped_not_crashed() {
    let mut r = RotControl::new(fxq(0.0), fxq(1000000.0), ticks(0.0));
    let mut pivot = cq(1.0, 0.0);
    r.update(ticks(5.0), fxq(0.0), false, &mut pivot).unwrap();
    assert_eq!(r.pos, fxq(5000000.0));
    // The pivot phase argument was clamped into the safe range, so the
    // pivot still lies on (roughly) the unit circle.
    let norm = fq(pivot.re).hypot(fq(pivot.im));
    assert!((norm - 1.0).abs() < 1e-3);
}
