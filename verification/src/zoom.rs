//! The zoom integrator.
//!
//! A `ZoomControl` keeps the strictly positive zoom factor and its
//! multiplicative velocity in the log domain: `pos` is the natural log
//! of the scale and `vel` the natural log of the per-second factor. In
//! that domain the throttle is a plain addition, the brake a square
//! root, and the range bounce a sign flip, so the whole integration is
//! exact fixed-point arithmetic; only the pivot compensation, which
//! needs the scale itself, goes through the exponential. When a step
//! carries the scale past its range in the direction of travel, the
//! velocity is replaced by its reciprocal — a bounce — instead of the
//! scale being clamped.

use vstd::prelude::*;

use crate::axis::CoordControl;
use crate::clock::ClockError;
use crate::clock::Timestamp;
use crate::clock::dt_v;
use crate::complex::Cpx;
use crate::complex::sc_add;
use crate::complex::sc_mul;
use crate::complex::sc_scale;
use crate::complex::sc_sub;
use crate::direction::ButtonState;
use crate::direction::ZoomDirection;
use crate::fx::FX_ONE_BITS;
use crate::fx::Fx;
use crate::fx::fx_abs_v;
use crate::fx::fx_add_v;
use crate::fx::fx_mul_v;
use crate::fx::fx_neg_v;
use crate::fx::fx_sub_v;
use crate::fx::sqrt_v;
use crate::trig::TRIG_ARG_LIMIT_BITS;
use crate::trig::cos_of;
use crate::trig::exp_arg_v;
use crate::trig::exp_of;
use crate::trig::sin_of;
use crate::trig::cos_fx;
use crate::trig::exp_fx;
use crate::trig::sin_fx;

verus! {

/// Default throttle coupling: the log-domain acceleration is scaled by
/// this factor before it is integrated.
pub const ZOOM_BASE_BITS: i64 = 42949673;

/// Log of the smallest allowed scale (a factor of `100`).
pub const LOG_ZOOM_MIN_BITS: i64 = 19779055341;

/// Log of the largest allowed scale (a factor of `2^23 * 100`).
pub const LOG_ZOOM_MAX_BITS: i64 = 88251078193;

/// A log-domain physics controller for the zoom factor.
#[derive(Clone, Copy, Debug, PartialEq, Eq)]
pub struct ZoomControl {
    /// Instant of the most recent update.
    pub t: Timestamp,
    /// Natural log of the zoom factor.
    pub pos: Fx,
    /// Natural log of the multiplicative velocity per second.
    pub vel: Fx,
    /// Pending log-domain acceleration; each update consumes it.
    pub acc: Fx,
    /// Pending brake; each update consumes it.
    pub brk: Fx,
    /// Held zoom key: inward or outward.
    pub mov: Option<bool>,
    /// Throttle coupling factor.
    pub base: Fx,
    /// Log of the smallest allowed scale.
    pub min: Fx,
    /// Log of the largest allowed scale.
    pub max: Fx,
}

/// The log velocity after the pending throttle is consumed.
pub open spec fn zoom_vel_accel(c: ZoomControl, dt: int) -> int {
    fx_add_v(
        c.vel.bits as int,
        fx_mul_v(fx_mul_v(c.base.bits as int, c.acc.bits as int), dt),
    )
}

/// The log velocity after the pending brake is consumed: the square of
/// the log velocity loses `base * dt * brk * |brk|`; if that would go
/// negative the brake overshot and the velocity snaps to neutral, else
/// the braked magnitude is the square root, with the old sign.
pub open spec fn zoom_vel_braked(c: ZoomControl, dt: int) -> int {
    let hyp = zoom_vel_accel(c, dt);
    let kat = fx_sub_v(
        fx_mul_v(hyp, hyp),
        fx_mul_v(
            fx_mul_v(fx_mul_v(c.base.bits as int, dt), c.brk.bits as int),
            fx_abs_v(c.brk.bits as int),
        ),
    );
    if kat < 0 {
        0
    } else {
        let root = sqrt_v(kat * (FX_ONE_BITS as int));
        if hyp >= 0 {
            root
        } else {
            -root
        }
    }
}

/// The effective log velocity for this frame: the braked velocity over
/// the elapsed time, nudged by the held key's log speed.
pub open spec fn zoom_vel_eff(c: ZoomControl, speed: int, dt: int) -> int {
    let v = fx_mul_v(zoom_vel_braked(c, dt), dt);
    match c.mov {
        Some(dir) => if dir {
            fx_sub_v(v, speed)
        } else {
            fx_add_v(v, speed)
        },
        None => v,
    }
}

/// The log step this frame adds to the scale.
pub open spec fn zoom_log_step(c: ZoomControl, speed: int, dt: int) -> int {
    fx_mul_v(zoom_vel_eff(c, speed, dt), dt)
}

/// The log scale after the step, backward when reversed.
pub open spec fn zoom_pos_after(c: ZoomControl, speed: int, reverse: bool, dt: int) -> int {
    if reverse {
        fx_sub_v(c.pos.bits as int, zoom_log_step(c, speed, dt))
    } else {
        fx_add_v(c.pos.bits as int, zoom_log_step(c, speed, dt))
    }
}

/// Whether this step bounces: the new scale has crossed the bound that
/// lies in the direction of travel.
pub open spec fn zoom_bounces(c: ZoomControl, speed: int, reverse: bool, dt: int) -> bool {
    let new_pos = zoom_pos_after(c, speed, reverse, dt);
    let dir = (zoom_vel_braked(c, dt) > 0) != reverse;
    (new_pos > c.max.bits && dir) || (new_pos < c.min.bits && !dir)
}

/// The log velocity the controller keeps after the step: reciprocated —
/// negated in the log domain — exactly when the step bounced.
pub open spec fn zoom_vel_after(c: ZoomControl, speed: int, reverse: bool, dt: int) -> int {
    let braked = zoom_vel_braked(c, dt);
    if zoom_bounces(c, speed, reverse, dt) {
        fx_neg_v(braked)
    } else {
        braked
    }
}

/// The whole controller state after one successful update at `now`.
pub open spec fn zoom_step(c: ZoomControl, now: Timestamp, speed: int, reverse: bool) -> ZoomControl {
    let dt = dt_v(now, c.t);
    ZoomControl {
        t: now,
        pos: Fx { bits: zoom_pos_after(c, speed, reverse, dt) as i64 },
        vel: Fx { bits: zoom_vel_after(c, speed, reverse, dt) as i64 },
        acc: Fx { bits: 0 },
        brk: Fx { bits: 0 },
        mov: c.mov,
        base: c.base,
        min: c.min,
        max: c.max,
    }
}

/// The compensation the pan center receives so the pivot stays fixed:
/// the pivot, scaled by the change of the reciprocal scale, turned by
/// the view angle.
pub open spec fn zoom_nudge(
    c: ZoomControl,
    speed: int,
    reverse: bool,
    win_center: Cpx,
    rot: int,
    dt: int,
) -> Cpx {
    let new_pos = zoom_pos_after(c, speed, reverse, dt);
    let recip_new = exp_of(exp_arg_v(fx_neg_v(new_pos)));
    let recip_old = exp_of(exp_arg_v(fx_neg_v(c.pos.bits as int)));
    let phase = Cpx { re: Fx { bits: cos_of(rot) as i64 }, im: Fx { bits: sin_of(rot) as i64 } };
    sc_mul(
        sc_sub(sc_scale(win_center, recip_new), sc_scale(win_center, recip_old)),
        phase,
    )
}

impl ZoomControl {
    /// A controller at the given log scale and log velocity, with the
    /// default throttle coupling and range, nothing pending and nothing
    /// held.
    pub fn new(pos: Fx, vel: Fx, now: Timestamp) -> (r: ZoomControl)
        ensures
            r == (ZoomControl {
                t: now,
                pos,
                vel,
                acc: Fx { bits: 0 },
                brk: Fx { bits: 0 },
                mov: None,
                base: Fx { bits: ZOOM_BASE_BITS },
                min: Fx { bits: LOG_ZOOM_MIN_BITS },
                max: Fx { bits: LOG_ZOOM_MAX_BITS },
            }),
    {
        ZoomControl {
            t: now,
            pos,
            vel,
            acc: Fx::zero(),
            brk: Fx::zero(),
            mov: None,
            base: Fx { bits: ZOOM_BASE_BITS },
            min: Fx { bits: LOG_ZOOM_MIN_BITS },
            max: Fx { bits: LOG_ZOOM_MAX_BITS },
        }
    }

    /// Press or release the held zoom key.
    pub fn mov(&mut self, direction: ZoomDirection, button_state: ButtonState)
        ensures
            *final(self) == zoom_keyed(*old(self), direction, button_state),
    {
        self.mov = match button_state {
            ButtonState::Pressed => Some(direction.forward()),
            ButtonState::Released => None,
        };
    }

    /// Integrate the zoom up to `now`: consume the throttle and the
    /// brake, step the log scale, compensate the pan center so the
    /// pivot stays fixed on screen, and bounce off the range bounds.
    /// `speed` is the log of the held key's factor and `rot` the view
    /// angle, already wrapped into the safe trigonometric range. Fails
    /// exactly when `now` lies before the previous update.
    pub fn update(
        &mut self,
        now: Timestamp,
        speed: Fx,
        reverse: bool,
        center: &mut CoordControl,
        win_center: Cpx,
        rot: Fx,
    ) -> (r: Result<(), ClockError>)
        requires
            -TRIG_ARG_LIMIT_BITS <= rot.bits <= TRIG_ARG_LIMIT_BITS,
        ensures
            now.ticks >= old(self).t.ticks ==> r is Ok && *final(self) == zoom_step(
                *old(self),
                now,
                speed.bits as int,
                reverse,
            ) && *final(center) == (CoordControl {
                pos: sc_add(
                    old(center).pos,
                    zoom_nudge(
                        *old(self),
                        speed.bits as int,
                        reverse,
                        win_center,
                        rot.bits as int,
                        dt_v(now, old(self).t),
                    ),
                ),
                ..*old(center)
            }),
            now.ticks < old(self).t.ticks ==> r is Err && *final(self) == (ZoomControl {
                t: now,
                ..*old(self)
            }) && *final(center) == *old(center),
    {
        let dt = match now.elapsed_since(self.t) {
            Ok(d) => d,
            Err(e) => {
                self.t = now;
                return Err(e);
            },
        };
        self.t = now;

        let hyp = self.vel.add(self.base.mul(self.acc).mul(dt));
        self.acc = Fx::zero();
        let kat = hyp.mul(hyp).sub(self.base.mul(dt).mul(self.brk).mul(self.brk.abs()));
        self.brk = Fx::zero();
        let braked = if kat.bits < 0 {
            Fx::zero()
        } else {
            let root = kat.sqrt();
            if hyp.bits >= 0 {
                root
            } else {
                root.neg()
            }
        };
        self.vel = braked;

        let mut vel_eff = braked.mul(dt);
        if let Some(dir) = self.mov {
            if dir {
                vel_eff = vel_eff.sub(speed);
            } else {
                vel_eff = vel_eff.add(speed);
            }
        }
        let log_step = vel_eff.mul(dt);
        let new_pos = if reverse {
            self.pos.sub(log_step)
        } else {
            self.pos.add(log_step)
        };

        let recip_new = exp_fx(new_pos.neg());
        let recip_old = exp_fx(self.pos.neg());
        let c = cos_fx(rot);
        let s = sin_fx(rot);
        let nudge = win_center.scale(recip_new).sub(win_center.scale(recip_old)).mul(
            Cpx { re: c, im: s },
        );
        center.nudge(nudge);

        self.pos = new_pos;
        let dir = (braked.bits > 0) != reverse;
        if (self.pos.bits > self.max.bits && dir) || (self.pos.bits < self.min.bits && !dir) {
            self.vel = braked.neg();
        }
        Ok(())
    }

    /// Add a signed log-domain zoom acceleration, or stop all motion
    /// when no direction is given.
    pub fn push(&mut self, push: Option<(ZoomDirection, Fx)>)
        ensures
            *final(self) == zoom_pushed(*old(self), push),
    {
        match push {
            Some((direction, accel)) => {
                match direction {
                    ZoomDirection::Inwards => self.acc = self.acc.add(accel),
                    ZoomDirection::Outwards => self.acc = self.acc.sub(accel),
                }
            },
            None => self.stop(),
        }
    }

    /// Add to the pending brake.
    pub fn brk(&mut self, brk: Fx)
        ensures
            *final(self) == (ZoomControl {
                brk: Fx { bits: fx_add_v(old(self).brk.bits as int, brk.bits as int) as i64 },
                ..*old(self)
            }),
    {
        self.brk = self.brk.add(brk);
    }

    /// Neutralize the velocity and drop the pending throttle and brake;
    /// the scale, held key and clock stay.
    pub fn stop(&mut self)
        ensures
            *final(self) == zoom_stopped(*old(self)),
    {
        self.vel = Fx::zero();
        self.acc = Fx::zero();
        self.brk = Fx::zero();
    }

    /// Reset the scale to `1` (log zero) and neutralize all motion:
    /// back to the default state, except that the held key, the clock
    /// and the configured coupling and range stay.
    pub fn reset(&mut self)
        ensures
            *final(self) == (ZoomControl {
                t: old(self).t,
                mov: old(self).mov,
                base: old(self).base,
                min: old(self).min,
                max: old(self).max,
                ..zoom_default()
            }),
    {
        self.pos = Fx::zero();
        self.vel = Fx::zero();
        self.acc = Fx::zero();
        self.brk = Fx::zero();
    }
}

/// The state after a zoom-key event.
pub open spec fn zoom_keyed(
    c: ZoomControl,
    direction: ZoomDirection,
    button_state: ButtonState,
) -> ZoomControl {
    ZoomControl { mov: crate::axis::held_flag(direction is Inwards, button_state), ..c }
}

/// The state after `stop`: neutral velocity, nothing pending, all else
/// kept.
pub open spec fn zoom_stopped(c: ZoomControl) -> ZoomControl {
    ZoomControl { vel: Fx { bits: 0 }, acc: Fx { bits: 0 }, brk: Fx { bits: 0 }, ..c }
}

/// The state after `push`: the pending throttle gains the signed
/// magnitude, or, with no direction, the controller stops.
pub open spec fn zoom_pushed(c: ZoomControl, push: Option<(ZoomDirection, Fx)>) -> ZoomControl {
    match push {
        Some((direction, accel)) => {
            let delta = accel.bits as int;
            match direction {
                ZoomDirection::Inwards => ZoomControl {
                    acc: Fx { bits: fx_add_v(c.acc.bits as int, delta) as i64 },
                    ..c
                },
                ZoomDirection::Outwards => ZoomControl {
                    acc: Fx { bits: fx_sub_v(c.acc.bits as int, delta) as i64 },
                    ..c
                },
            }
        },
        None => zoom_stopped(c),
    }
}

/// The default-constructed state: scale `1` with neutral velocity, the
/// default coupling and range, and the clock at tick zero.
pub open spec fn zoom_default() -> ZoomControl {
    ZoomControl {
        t: Timestamp { ticks: 0 },
        pos: Fx { bits: 0 },
        vel: Fx { bits: 0 },
        acc: Fx { bits: 0 },
        brk: Fx { bits: 0 },
        mov: None,
        base: Fx { bits: ZOOM_BASE_BITS },
        min: Fx { bits: LOG_ZOOM_MIN_BITS },
        max: Fx { bits: LOG_ZOOM_MAX_BITS },
    }
}

impl Default for ZoomControl {
    /// The controller at scale `1` with neutral velocity, the default
    /// coupling and range, and the clock at tick zero.
    fn default() -> (r: ZoomControl)
        ensures
            r == zoom_default(),
    {
        ZoomControl::new(Fx::zero(), Fx::zero(), Timestamp { ticks: 0 })
    }
}

/// After `stop`, an update with nothing held leaves the scale exactly
/// where it was: there is no residual zoom.
pub proof fn lemma_zoom_stop_no_motion(c: ZoomControl, speed: int, reverse: bool, dt: int)
    requires
        c.mov is None,
        dt >= 0,
    ensures
        zoom_pos_after(zoom_stopped(c), speed, reverse, dt) == c.pos.bits,
{
    let s = zoom_stopped(c);
    crate::fx::lemma_fx_mul_zero_right(c.base.bits as int);
    crate::fx::lemma_fx_mul_zero_left(dt);
    assert(zoom_vel_accel(s, dt) == 0);
    crate::fx::lemma_fx_mul_zero_left(0);
    crate::fx::lemma_fx_mul_zero_right(fx_mul_v(c.base.bits as int, dt));
    assert(zoom_vel_braked(s, dt) == 0) by {
        crate::fx::lemma_sqrt_zero();
    }
    crate::fx::lemma_fx_mul_zero_left(dt);
}

/// A step can overshoot the configured range by at most its own size:
/// starting inside `[min, max]`, the new log scale stays within the
/// range widened by the magnitude of this frame's log step.
pub proof fn lemma_zoom_overshoot_bounded(c: ZoomControl, speed: int, reverse: bool, dt: int)
    requires
        c.min.bits <= c.pos.bits <= c.max.bits,
    ensures
        zoom_pos_after(c, speed, reverse, dt) <= c.max.bits + abs_step(c, speed, dt),
        zoom_pos_after(c, speed, reverse, dt) >= c.min.bits - abs_step(c, speed, dt),
{
}

/// The magnitude of this frame's log step.
pub open spec fn abs_step(c: ZoomControl, speed: int, dt: int) -> int {
    let step = zoom_log_step(c, speed, dt);
    if step < 0 {
        -step
    } else {
        step
    }
}

/// Between bounces the scale moves with the velocity's sign: with
/// nothing pending and nothing held, a nonpositive log velocity never
/// raises the log scale and a nonnegative one never lowers it. After a
/// bounce at the upper bound the velocity is negative, so the next
/// steps bring the scale back toward the range.
pub proof fn lemma_zoom_motion_follows_velocity(c: ZoomControl, speed: int, dt: int)
    requires
        c.acc.bits == 0,
        c.brk.bits == 0,
        c.mov is None,
        dt >= 0,
    ensures
        c.vel.bits <= 0 ==> zoom_pos_after(c, speed, false, dt) <= c.pos.bits,
        c.vel.bits >= 0 ==> zoom_pos_after(c, speed, false, dt) >= c.pos.bits,
{
    crate::fx::lemma_fx_mul_zero_right(c.base.bits as int);
    crate::fx::lemma_fx_mul_zero_left(dt);
    assert(zoom_vel_accel(c, dt) == c.vel.bits);
    crate::fx::lemma_fx_mul_zero_right(fx_mul_v(c.base.bits as int, dt));
    crate::fx::lemma_fx_mul_zero_left(0);
    let hyp = c.vel.bits as int;
    let kat = fx_mul_v(hyp, hyp);
    crate::fx::lemma_sqrt_nonneg(kat * (FX_ONE_BITS as int));
    if c.vel.bits == 0 {
        crate::fx::lemma_sqrt_zero();
    }
    let braked = zoom_vel_braked(c, dt);
    if c.vel.bits <= 0 {
        assert(braked <= 0);
        crate::fx::lemma_fx_mul_nonpos(braked, dt);
        crate::fx::lemma_fx_mul_nonpos(fx_mul_v(braked, dt), dt);
    }
    if c.vel.bits >= 0 {
        assert(braked >= 0);
        crate::fx::lemma_fx_mul_nonneg(braked, dt);
        crate::fx::lemma_fx_mul_nonneg(fx_mul_v(braked, dt), dt);
    }
}

/// The bounce is exact: the velocity is reciprocated at a step if and
/// only if that step carries the scale past the bound that lies in its
/// direction of travel; otherwise the velocity is exactly the braked
/// velocity.
pub proof fn lemma_zoom_bounce_exact(c: ZoomControl, speed: int, reverse: bool, dt: int)
    ensures
        zoom_bounces(c, speed, reverse, dt) ==> zoom_vel_after(c, speed, reverse, dt) == fx_neg_v(
            zoom_vel_braked(c, dt),
        ),
        !zoom_bounces(c, speed, reverse, dt) ==> zoom_vel_after(c, speed, reverse, dt)
            == zoom_vel_braked(c, dt),
        zoom_bounces(c, speed, reverse, dt) <==> {
            let new_pos = zoom_pos_after(c, speed, reverse, dt);
            let dir = (zoom_vel_braked(c, dt) > 0) != reverse;
            (new_pos > c.max.bits && dir) || (new_pos < c.min.bits && !dir)
        },
{
}

} // verus!
