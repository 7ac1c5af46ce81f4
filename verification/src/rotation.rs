//! The angular integrator.
//!
//! A `RotControl` drives the view angle with a velocity, a pending
//! acceleration, and one held rotation key. Each update also turns the
//! shared pivot point backward by the angle just gained, so the point
//! under the pivot stays anchored on screen while the plane rotates.
//! The angle is not wrapped here: wrapping belongs to the constructor
//! that accepts a raw angle, so the integrated angle remains the exact
//! unwrapped sum of its increments.

use vstd::prelude::*;

use crate::clock::ClockError;
use crate::clock::Timestamp;
use crate::clock::dt_v;
use crate::complex::Cpx;
use crate::complex::sc_mul;
use crate::direction::ButtonState;
use crate::direction::RotateDirection;
use crate::fx::Fx;
use crate::fx::fx_add_v;
use crate::fx::fx_clamp_v;
use crate::fx::fx_mul_v;
use crate::fx::fx_sub_v;
use crate::trig::TRIG_ARG_LIMIT_BITS;
use crate::trig::cos_of;
use crate::trig::sin_of;
use crate::trig::cos_fx;
use crate::trig::sin_fx;

verus! {

/// One full turn, `2 * pi`, in fixed-point bits.
pub const TAU_BITS: i64 = 26986075409;

/// A 1-D physics controller for the view angle.
#[derive(Clone, Copy, Debug, PartialEq, Eq)]
pub struct RotControl {
    /// Instant of the most recent update.
    pub t: Timestamp,
    /// The integrated angle, in radians.
    pub pos: Fx,
    /// Angular velocity, in radians per second.
    pub vel: Fx,
    /// Pending angular acceleration; each update folds it into the
    /// velocity and clears it.
    pub acc: Fx,
    /// Held rotation key: forward or backward.
    pub mov: Option<bool>,
}

/// The angular velocity after one update over `dt`.
pub open spec fn rot_vel_after(c: RotControl, dt: int) -> int {
    fx_add_v(c.vel.bits as int, fx_mul_v(c.acc.bits as int, dt))
}

/// The angle after one update over `dt`: the velocity drift, backward
/// when reversed, then the held key's nudge, whose sign flips with the
/// held direction and again with `reverse`.
pub open spec fn rot_angle_after(c: RotControl, speed: int, reverse: bool, dt: int) -> int {
    let vel = rot_vel_after(c, dt);
    let drifted = if reverse {
        fx_sub_v(c.pos.bits as int, fx_mul_v(vel, dt))
    } else {
        fx_add_v(c.pos.bits as int, fx_mul_v(vel, dt))
    };
    match c.mov {
        Some(dir) => if dir != reverse {
            fx_add_v(drifted, fx_mul_v(speed, dt))
        } else {
            fx_sub_v(drifted, fx_mul_v(speed, dt))
        },
        None => drifted,
    }
}

/// The angle the pivot is turned by: the angle lost by the plane in this
/// update, clamped into the safe trigonometric argument range.
pub open spec fn rot_pivot_angle(c: RotControl, speed: int, reverse: bool, dt: int) -> int {
    fx_clamp_v(
        fx_sub_v(c.pos.bits as int, rot_angle_after(c, speed, reverse, dt)),
        -TRIG_ARG_LIMIT_BITS as int,
        TRIG_ARG_LIMIT_BITS as int,
    )
}

/// The pivot after the update: unchanged when the angle did not move,
/// otherwise multiplied by the unit phase of the angle lost.
pub open spec fn rot_pivot_after(
    c: RotControl,
    speed: int,
    reverse: bool,
    w: Cpx,
    dt: int,
) -> Cpx {
    let ang = rot_pivot_angle(c, speed, reverse, dt);
    if ang == 0 {
        w
    } else {
        sc_mul(w, Cpx { re: Fx { bits: cos_of(ang) as i64 }, im: Fx { bits: sin_of(ang) as i64 } })
    }
}

/// The whole controller state after one successful update at `now`.
pub open spec fn rot_step(c: RotControl, now: Timestamp, speed: int, reverse: bool) -> RotControl {
    let dt = dt_v(now, c.t);
    RotControl {
        t: now,
        pos: Fx { bits: rot_angle_after(c, speed, reverse, dt) as i64 },
        vel: Fx { bits: rot_vel_after(c, dt) as i64 },
        acc: Fx { bits: 0 },
        mov: c.mov,
    }
}

impl RotControl {
    /// A controller at the given angle and angular velocity, with no
    /// pending acceleration and nothing held.
    pub fn new(pos: Fx, vel: Fx, now: Timestamp) -> (r: RotControl)
        ensures
            r == (RotControl { t: now, pos, vel, acc: Fx { bits: 0 }, mov: None }),
    {
        RotControl { t: now, pos, vel, acc: Fx::zero(), mov: None }
    }

    /// A controller at rest at the given raw angle, wrapped into
    /// `[0, 2 * pi)`.
    pub fn from_angle(pos: Fx, now: Timestamp) -> (r: RotControl)
        ensures
            r == (RotControl {
                t: now,
                pos: Fx { bits: wrap_angle_v(pos.bits as int) as i64 },
                vel: Fx { bits: 0 },
                acc: Fx { bits: 0 },
                mov: None,
            }),
    {
        RotControl::new(wrap_angle(pos), Fx::zero(), now)
    }

    /// Integrate the angle up to `now` and turn the pivot backward by
    /// the angle gained. Fails exactly when `now` lies before the
    /// previous update.
    pub fn update(
        &mut self,
        now: Timestamp,
        speed: Fx,
        reverse: bool,
        win_center: &mut Cpx,
    ) -> (r: Result<(), ClockError>)
        ensures
            now.ticks >= old(self).t.ticks ==> r is Ok && *final(self) == rot_step(
                *old(self),
                now,
                speed.bits as int,
                reverse,
            ) && *final(win_center) == rot_pivot_after(
                *old(self),
                speed.bits as int,
                reverse,
                *old(win_center),
                dt_v(now, old(self).t),
            ),
            now.ticks < old(self).t.ticks ==> r is Err && *final(self) == (RotControl {
                t: now,
                ..*old(self)
            }) && *final(win_center) == *old(win_center),
    {
        let dt = match now.elapsed_since(self.t) {
            Ok(d) => d,
            Err(e) => {
                self.t = now;
                return Err(e);
            },
        };
        self.t = now;
        self.vel = self.vel.add(self.acc.mul(dt));
        self.acc = Fx::zero();
        let pos0 = self.pos;
        if reverse {
            self.pos = self.pos.sub(self.vel.mul(dt));
        } else {
            self.pos = self.pos.add(self.vel.mul(dt));
        }
        if let Some(dir) = self.mov {
            let nudge = speed.mul(dt);
            if dir != reverse {
                self.pos = self.pos.add(nudge);
            } else {
                self.pos = self.pos.sub(nudge);
            }
        }
        let delta = pos0.sub(self.pos).clamp(
            Fx { bits: -TRIG_ARG_LIMIT_BITS },
            Fx { bits: TRIG_ARG_LIMIT_BITS },
        );
        if delta.bits != 0 {
            let c = cos_fx(delta);
            let s = sin_fx(delta);
            *win_center = win_center.mul(Cpx { re: c, im: s });
        }
        Ok(())
    }

    /// Press or release the held rotation key.
    pub fn rot(&mut self, direction: RotateDirection, button_state: ButtonState)
        ensures
            *final(self) == rot_keyed(*old(self), direction, button_state),
    {
        self.mov = match button_state {
            ButtonState::Pressed => Some(direction.forward()),
            ButtonState::Released => None,
        };
    }

    /// Add a signed angular acceleration, or stop all motion when no
    /// direction is given.
    pub fn push(&mut self, push: Option<(RotateDirection, Fx)>)
        ensures
            *final(self) == rot_pushed(*old(self), push),
    {
        match push {
            Some((direction, accel)) => {
                match direction {
                    RotateDirection::Left => self.acc = self.acc.sub(accel),
                    RotateDirection::Right => self.acc = self.acc.add(accel),
                }
            },
            None => self.stop(),
        }
    }

    /// Zero the velocity and pending acceleration; the angle, held key
    /// and clock stay.
    pub fn stop(&mut self)
        ensures
            *final(self) == rot_stopped(*old(self)),
    {
        self.vel = Fx::zero();
        self.acc = Fx::zero();
    }

    /// Zero the motion and the angle: back to the default state, except
    /// that the held key and the clock stay.
    pub fn reset(&mut self)
        ensures
            *final(self) == (RotControl { t: old(self).t, mov: old(self).mov, ..rot_default() }),
    {
        self.pos = Fx::zero();
        self.vel = Fx::zero();
        self.acc = Fx::zero();
    }
}

/// The state after a rotation-key event.
pub open spec fn rot_keyed(
    c: RotControl,
    direction: RotateDirection,
    button_state: ButtonState,
) -> RotControl {
    RotControl { mov: crate::axis::held_flag(direction is Right, button_state), ..c }
}

/// The state after `stop`: motion zeroed, all else kept.
pub open spec fn rot_stopped(c: RotControl) -> RotControl {
    RotControl { vel: Fx { bits: 0 }, acc: Fx { bits: 0 }, ..c }
}

/// The state after `push`: the acceleration gains the signed magnitude,
/// or, with no direction, the controller stops.
pub open spec fn rot_pushed(c: RotControl, push: Option<(RotateDirection, Fx)>) -> RotControl {
    match push {
        Some((direction, accel)) => {
            let delta = accel.bits as int;
            match direction {
                RotateDirection::Right => RotControl {
                    acc: Fx { bits: fx_add_v(c.acc.bits as int, delta) as i64 },
                    ..c
                },
                RotateDirection::Left => RotControl {
                    acc: Fx { bits: fx_sub_v(c.acc.bits as int, delta) as i64 },
                    ..c
                },
            }
        },
        None => rot_stopped(c),
    }
}

/// The default-constructed state: at rest at angle zero, with the
/// clock at tick zero.
pub open spec fn rot_default() -> RotControl {
    RotControl {
        t: Timestamp { ticks: 0 },
        pos: Fx { bits: 0 },
        vel: Fx { bits: 0 },
        acc: Fx { bits: 0 },
        mov: None,
    }
}

impl Default for RotControl {
    /// The controller at rest at angle zero, with the clock at tick zero.
    fn default() -> (r: RotControl)
        ensures
            r == rot_default(),
    {
        RotControl::new(Fx::zero(), Fx::zero(), Timestamp { ticks: 0 })
    }
}

/// The raw angle wrapped into `[0, 2 * pi)` by a Euclidean remainder.
pub open spec fn wrap_angle_v(x: int) -> int {
    x % (TAU_BITS as int)
}

/// Wrap a raw angle into `[0, 2 * pi)`.
pub fn wrap_angle(a: Fx) -> (r: Fx)
    ensures
        r.bits == wrap_angle_v(a.bits as int),
        0 <= r.bits < TAU_BITS,
{
    proof {
        vstd::arithmetic::div_mod::lemma_mod_bound(a.bits as int, TAU_BITS as int);
    }
    Fx { bits: a.bits.checked_rem_euclid(TAU_BITS).unwrap() }
}

/// Wrapping keeps the angle congruent modulo one full turn: the wrapped
/// angle lies in `[0, 2 * pi)` and differs from the raw angle by a whole
/// number of turns.
pub proof fn lemma_wrap_angle_congruent(x: int)
    ensures
        0 <= wrap_angle_v(x) < TAU_BITS,
        exists|k: int| x - wrap_angle_v(x) == #[trigger] (k * (TAU_BITS as int)),
{
    vstd::arithmetic::div_mod::lemma_mod_bound(x, TAU_BITS as int);
    vstd::arithmetic::div_mod::lemma_fundamental_div_mod(x, TAU_BITS as int);
    let k = x / (TAU_BITS as int);
    assert(x - wrap_angle_v(x) == k * (TAU_BITS as int)) by {
        assert(x == (TAU_BITS as int) * k + x % (TAU_BITS as int));
    }
}

/// As long as no sum saturates, the integrated angle is the exact sum of
/// the previous angle and this update's increments: the angle stays the
/// mathematically exact unwrapped integral of the angular velocity.
pub proof fn lemma_rot_angle_exact(c: RotControl, speed: int, reverse: bool, dt: int)
    requires
        dt >= 0,
        i64::MIN <= c.vel.bits + fx_mul_v(c.acc.bits as int, dt) <= i64::MAX,
        i64::MIN <= c.pos.bits + rot_drift_term(c, reverse, dt) + rot_held_term(c, speed, reverse, dt)
            <= i64::MAX,
        i64::MIN <= c.pos.bits + rot_drift_term(c, reverse, dt) <= i64::MAX,
    ensures
        rot_angle_after(c, speed, reverse, dt) == c.pos.bits + rot_drift_term(c, reverse, dt)
            + rot_held_term(c, speed, reverse, dt),
{
}

/// The signed drift this update adds to the angle.
pub open spec fn rot_drift_term(c: RotControl, reverse: bool, dt: int) -> int {
    let step = fx_mul_v(rot_vel_after(c, dt), dt);
    if reverse {
        -step
    } else {
        step
    }
}

/// The signed held-key nudge this update adds to the angle.
pub open spec fn rot_held_term(c: RotControl, speed: int, reverse: bool, dt: int) -> int {
    match c.mov {
        Some(dir) => if dir != reverse {
            fx_mul_v(speed, dt)
        } else {
            -fx_mul_v(speed, dt)
        },
        None => 0,
    }
}

/// After `stop`, an update with nothing held leaves the angle exactly
/// where it was: there is no residual rotation.
pub proof fn lemma_rot_stop_no_motion(c: RotControl, speed: int, reverse: bool, dt: int)
    requires
        c.mov is None,
        dt >= 0,
    ensures
        rot_angle_after(rot_stopped(c), speed, reverse, dt) == c.pos.bits,
{
    crate::fx::lemma_fx_mul_zero_left(dt);
}

} // verus!
