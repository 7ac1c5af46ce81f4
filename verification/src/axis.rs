//! The 2-D position integrator.
//!
//! A `CoordControl` drives one complex-valued parameter (the pan center,
//! the shift, or the exponent) with a velocity, a pending acceleration
//! that each update consumes, one held-key flag per screen axis, and an
//! optional held rotation. Each update integrates over the real time
//! elapsed since the previous one; the spec functions below give the new
//! state exactly, step by step, in the order the update applies them.

use vstd::prelude::*;

use crate::clock::ClockError;
use crate::clock::Timestamp;
use crate::clock::dt_v;
use crate::complex::Cpx;
use crate::complex::sc_add;
use crate::complex::sc_mul;
use crate::complex::sc_rot270;
use crate::complex::sc_scale;
use crate::complex::sc_sub;
use crate::complex::sc_zero;
use crate::direction::ButtonState;
use crate::direction::MoveDirection;
use crate::direction::RotateDirection;
use crate::fx::Fx;
use crate::fx::fx_add_v;
use crate::fx::fx_mul_v;
use crate::fx::fx_neg_v;
use crate::fx::fx_sub_v;
use crate::trig::TRIG_ARG_LIMIT_BITS;
use crate::trig::cos_of;
use crate::trig::sin_of;
use crate::trig::cos_fx;
use crate::trig::sin_fx;

verus! {

/// A 2-D physics controller for one navigable complex parameter.
#[derive(Clone, Copy, Debug, PartialEq, Eq)]
pub struct CoordControl {
    /// Instant of the most recent update.
    pub t: Timestamp,
    /// The integrated position.
    pub pos: Cpx,
    /// Velocity, applied per second of elapsed time.
    pub vel: Cpx,
    /// Pending acceleration; each update folds it into the velocity and
    /// clears it.
    pub acc: Cpx,
    /// Held key on the horizontal screen axis: forward or backward.
    pub mov_x: Option<bool>,
    /// Held key on the vertical screen axis: forward or backward.
    pub mov_y: Option<bool>,
    /// Held rotation of the position itself around the origin.
    pub rot: Option<bool>,
}

/// The velocity after one update over `dt`: the pending acceleration,
/// integrated once, is added on.
pub open spec fn axis_vel_after(c: CoordControl, dt: int) -> Cpx {
    sc_add(c.vel, sc_scale(c.acc, dt))
}

/// The position after the velocity drift: moved by `vel * dt`, backward
/// when the view is reversed.
pub open spec fn axis_drift(pos: Cpx, vel: Cpx, dt: int, reverse: bool) -> Cpx {
    if reverse {
        sc_sub(pos, sc_scale(vel, dt))
    } else {
        sc_add(pos, sc_scale(vel, dt))
    }
}

/// A held key moves against the nudge when its flag is forward, with it
/// otherwise.
pub open spec fn axis_held(pos: Cpx, nudge: Cpx, dir: bool) -> Cpx {
    if dir {
        sc_sub(pos, nudge)
    } else {
        sc_add(pos, nudge)
    }
}

/// Effect of the horizontal held key: the speed vector itself, scaled by
/// the elapsed time.
pub open spec fn axis_held_x(pos: Cpx, speed: Cpx, dt: int, mov: Option<bool>) -> Cpx {
    match mov {
        Some(dir) => axis_held(pos, sc_scale(speed, dt), dir),
        None => pos,
    }
}

/// Effect of the vertical held key: the speed vector turned a quarter
/// turn, scaled by the elapsed time.
pub open spec fn axis_held_y(pos: Cpx, speed: Cpx, dt: int, mov: Option<bool>) -> Cpx {
    match mov {
        Some(dir) => axis_held(pos, sc_scale(sc_rot270(speed), dt), dir),
        None => pos,
    }
}

/// Effect of the held rotation: the position is multiplied by the unit
/// phase of the rotation speed, with the sign of the held direction.
pub open spec fn axis_spin(pos: Cpx, rot_speed: int, rot: Option<bool>) -> Cpx {
    match rot {
        Some(dir) => {
            let ang = if dir {
                rot_speed
            } else {
                fx_neg_v(rot_speed)
            };
            sc_mul(
                pos,
                Cpx { re: Fx { bits: cos_of(ang) as i64 }, im: Fx { bits: sin_of(ang) as i64 } },
            )
        },
        None => pos,
    }
}

/// The position after one whole update over `dt`: drift, the two held
/// keys, then the held rotation, in that order.
pub open spec fn axis_pos_after(
    c: CoordControl,
    speed: Cpx,
    rot_speed: int,
    reverse: bool,
    dt: int,
) -> Cpx {
    let vel = axis_vel_after(c, dt);
    let drifted = axis_drift(c.pos, vel, dt, reverse);
    let held_x = axis_held_x(drifted, speed, dt, c.mov_x);
    let held_y = axis_held_y(held_x, speed, dt, c.mov_y);
    axis_spin(held_y, rot_speed, c.rot)
}

/// The whole controller state after one successful update at `now`.
pub open spec fn axis_step(
    c: CoordControl,
    now: Timestamp,
    speed: Cpx,
    rot_speed: int,
    reverse: bool,
) -> CoordControl {
    let dt = dt_v(now, c.t);
    CoordControl {
        t: now,
        pos: axis_pos_after(c, speed, rot_speed, reverse, dt),
        vel: axis_vel_after(c, dt),
        acc: sc_zero(),
        mov_x: c.mov_x,
        mov_y: c.mov_y,
        rot: c.rot,
    }
}

impl CoordControl {
    /// A controller at the given position and velocity, with no pending
    /// acceleration and nothing held, whose last update was at `now`.
    pub fn new(pos: Cpx, vel: Cpx, now: Timestamp) -> (r: CoordControl)
        ensures
            r == (CoordControl {
                t: now,
                pos,
                vel,
                acc: sc_zero(),
                mov_x: None,
                mov_y: None,
                rot: None,
            }),
    {
        CoordControl {
            t: now,
            pos,
            vel,
            acc: Cpx::zero(),
            mov_x: None,
            mov_y: None,
            rot: None,
        }
    }

    /// Integrate the controller up to `now`. The position drifts by the
    /// velocity, held keys nudge it by `speed`, and a held rotation spins
    /// it by `rot_speed`; backward when `reverse` is set. Fails exactly
    /// when `now` lies before the previous update.
    pub fn update(
        &mut self,
        now: Timestamp,
        speed: Cpx,
        rot_speed: Fx,
        reverse: bool,
    ) -> (r: Result<(), ClockError>)
        requires
            -TRIG_ARG_LIMIT_BITS <= rot_speed.bits <= TRIG_ARG_LIMIT_BITS,
        ensures
            now.ticks >= old(self).t.ticks ==> r is Ok && *final(self) == axis_step(
                *old(self),
                now,
                speed,
                rot_speed.bits as int,
                reverse,
            ),
            now.ticks < old(self).t.ticks ==> r is Err && *final(self) == (CoordControl {
                t: now,
                ..*old(self)
            }),
    {
        let dt = match now.elapsed_since(self.t) {
            Ok(d) => d,
            Err(e) => {
                self.t = now;
                return Err(e);
            },
        };
        self.t = now;
        self.vel = self.vel.add(self.acc.scale(dt));
        self.acc = Cpx::zero();
        if reverse {
            self.pos = self.pos.sub(self.vel.scale(dt));
        } else {
            self.pos = self.pos.add(self.vel.scale(dt));
        }
        if let Some(dir) = self.mov_x {
            let nudge = speed.scale(dt);
            if dir {
                self.pos = self.pos.sub(nudge);
            } else {
                self.pos = self.pos.add(nudge);
            }
        }
        if let Some(dir) = self.mov_y {
            let nudge = speed.rot270().scale(dt);
            if dir {
                self.pos = self.pos.sub(nudge);
            } else {
                self.pos = self.pos.add(nudge);
            }
        }
        if let Some(dir) = self.rot {
            let ang = if dir {
                rot_speed
            } else {
                rot_speed.neg()
            };
            let c = cos_fx(ang);
            let s = sin_fx(ang);
            self.pos = self.pos.mul(Cpx { re: c, im: s });
        }
        Ok(())
    }

    /// Press or release a held rotation key.
    pub fn rot(&mut self, direction: RotateDirection, button_state: ButtonState)
        ensures
            *final(self) == axis_rot_keyed(*old(self), direction, button_state),
    {
        self.rot = match button_state {
            ButtonState::Pressed => Some(direction.forward()),
            ButtonState::Released => None,
        };
    }

    /// Press or release a held movement key on the key's axis.
    pub fn mov(&mut self, direction: MoveDirection, button_state: ButtonState)
        ensures
            *final(self) == axis_moved(*old(self), direction, button_state),
    {
        let flag = match button_state {
            ButtonState::Pressed => Some(direction.forward()),
            ButtonState::Released => None,
        };
        if direction.axis() {
            self.mov_y = flag;
        } else {
            self.mov_x = flag;
        }
    }

    /// Shift the position directly, without touching the motion state.
    pub fn nudge(&mut self, nudge: Cpx)
        ensures
            *final(self) == (CoordControl { pos: sc_add(old(self).pos, nudge), ..*old(self) }),
    {
        self.pos = self.pos.add(nudge);
    }

    /// Add a signed acceleration along one screen axis, or stop all
    /// motion when no direction is given.
    pub fn push(&mut self, push: Option<(MoveDirection, Fx)>)
        ensures
            *final(self) == axis_pushed(*old(self), push),
    {
        match push {
            Some((direction, accel)) => {
                if direction.axis() {
                    if direction.forward() {
                        self.acc.im = self.acc.im.add(accel);
                    } else {
                        self.acc.im = self.acc.im.sub(accel);
                    }
                } else {
                    if direction.forward() {
                        self.acc.re = self.acc.re.add(accel);
                    } else {
                        self.acc.re = self.acc.re.sub(accel);
                    }
                }
            },
            None => self.stop(),
        }
    }

    /// Zero the velocity and pending acceleration; the position, held
    /// keys and clock stay.
    pub fn stop(&mut self)
        ensures
            *final(self) == axis_stopped(*old(self)),
    {
        self.vel = Cpx::zero();
        self.acc = Cpx::zero();
    }

    /// Zero the motion and the position: back to the default state,
    /// except that the held keys and the clock stay.
    pub fn reset(&mut self)
        ensures
            *final(self) == (CoordControl {
                t: old(self).t,
                mov_x: old(self).mov_x,
                mov_y: old(self).mov_y,
                rot: old(self).rot,
                ..axis_default()
            }),
    {
        self.pos = Cpx::zero();
        self.vel = Cpx::zero();
        self.acc = Cpx::zero();
    }
}

/// The held-flag value a key event sets: the key's forward sign on a
/// press, nothing on a release.
pub open spec fn held_flag(forward: bool, button_state: ButtonState) -> Option<bool> {
    match button_state {
        ButtonState::Pressed => Some(forward),
        ButtonState::Released => None,
    }
}

/// The state after a movement-key event: the flag of the key's axis is
/// set or cleared.
pub open spec fn axis_moved(
    c: CoordControl,
    direction: MoveDirection,
    button_state: ButtonState,
) -> CoordControl {
    match direction {
        MoveDirection::Left | MoveDirection::Right => CoordControl {
            mov_x: held_flag(direction is Right, button_state),
            ..c
        },
        MoveDirection::Up | MoveDirection::Down => CoordControl {
            mov_y: held_flag(direction is Up, button_state),
            ..c
        },
    }
}

/// The state after a rotation-key event.
pub open spec fn axis_rot_keyed(
    c: CoordControl,
    direction: RotateDirection,
    button_state: ButtonState,
) -> CoordControl {
    CoordControl { rot: held_flag(direction is Right, button_state), ..c }
}

/// The state after `stop`: motion zeroed, all else kept.
pub open spec fn axis_stopped(c: CoordControl) -> CoordControl {
    CoordControl { vel: sc_zero(), acc: sc_zero(), ..c }
}

/// The state after `push`: the acceleration gains the signed magnitude
/// on the key's axis, or, with no direction, the controller stops.
pub open spec fn axis_pushed(c: CoordControl, push: Option<(MoveDirection, Fx)>) -> CoordControl {
    match push {
        Some((direction, accel)) => {
            let delta = accel.bits as int;
            match direction {
                MoveDirection::Right => CoordControl {
                    acc: Cpx {
                        re: Fx { bits: fx_add_v(c.acc.re.bits as int, delta) as i64 },
                        im: c.acc.im,
                    },
                    ..c
                },
                MoveDirection::Left => CoordControl {
                    acc: Cpx {
                        re: Fx { bits: fx_sub_v(c.acc.re.bits as int, delta) as i64 },
                        im: c.acc.im,
                    },
                    ..c
                },
                MoveDirection::Up => CoordControl {
                    acc: Cpx {
                        re: c.acc.re,
                        im: Fx { bits: fx_add_v(c.acc.im.bits as int, delta) as i64 },
                    },
                    ..c
                },
                MoveDirection::Down => CoordControl {
                    acc: Cpx {
                        re: c.acc.re,
                        im: Fx { bits: fx_sub_v(c.acc.im.bits as int, delta) as i64 },
                    },
                    ..c
                },
            }
        },
        None => axis_stopped(c),
    }
}

/// The default-constructed state: at rest at the origin, with the
/// clock at tick zero.
pub open spec fn axis_default() -> CoordControl {
    CoordControl {
        t: Timestamp { ticks: 0 },
        pos: sc_zero(),
        vel: sc_zero(),
        acc: sc_zero(),
        mov_x: None,
        mov_y: None,
        rot: None,
    }
}

impl Default for CoordControl {
    /// The controller at rest at the origin, with the clock at tick zero.
    fn default() -> (r: CoordControl)
        ensures
            r == axis_default(),
    {
        CoordControl::new(Cpx::zero(), Cpx::zero(), Timestamp { ticks: 0 })
    }
}

/// With nothing held, no pending acceleration and no spin, an update
/// moves the position exactly when the velocity is nonzero — provided
/// the elapsed time is long enough for the drift to be representable and
/// the position is far enough from the ends of the range that the drift
/// is not swallowed by saturation.
pub proof fn lemma_axis_update_fixpoint(
    c: CoordControl,
    speed: Cpx,
    rot_speed: int,
    reverse: bool,
    dt: int,
)
    requires
        c.acc == sc_zero(),
        c.mov_x is None,
        c.mov_y is None,
        c.rot is None,
        dt >= 0,
        fx_mul_v(c.vel.re.bits as int, dt) == 0 ==> c.vel.re.bits == 0,
        fx_mul_v(c.vel.im.bits as int, dt) == 0 ==> c.vel.im.bits == 0,
        i64::MIN <= c.pos.re.bits + fx_mul_v(c.vel.re.bits as int, dt) <= i64::MAX,
        i64::MIN <= c.pos.im.bits + fx_mul_v(c.vel.im.bits as int, dt) <= i64::MAX,
        i64::MIN <= c.pos.re.bits - fx_mul_v(c.vel.re.bits as int, dt) <= i64::MAX,
        i64::MIN <= c.pos.im.bits - fx_mul_v(c.vel.im.bits as int, dt) <= i64::MAX,
    ensures
        (axis_pos_after(c, speed, rot_speed, reverse, dt) == c.pos) <==> c.vel == sc_zero(),
{
    crate::fx::lemma_fx_mul_zero_left(dt);
    assert(axis_vel_after(c, dt) == c.vel);
}

/// Over an empty time step, an update with nothing held moves nothing,
/// whatever the velocity and pending acceleration are.
pub proof fn lemma_axis_zero_dt_no_motion(c: CoordControl, speed: Cpx, rot_speed: int, reverse: bool)
    requires
        c.mov_x is None,
        c.mov_y is None,
        c.rot is None,
    ensures
        axis_pos_after(c, speed, rot_speed, reverse, 0) == c.pos,
{
    crate::fx::lemma_fx_mul_zero_right(c.acc.re.bits as int);
    crate::fx::lemma_fx_mul_zero_right(c.acc.im.bits as int);
    assert(axis_vel_after(c, 0) == c.vel);
    crate::fx::lemma_fx_mul_zero_right(c.vel.re.bits as int);
    crate::fx::lemma_fx_mul_zero_right(c.vel.im.bits as int);
}

/// After `stop`, an update with nothing held moves nothing: there is no
/// residual motion.
pub proof fn lemma_axis_stop_no_motion(
    c: CoordControl,
    speed: Cpx,
    rot_speed: int,
    reverse: bool,
    dt: int,
)
    requires
        c.mov_x is None,
        c.mov_y is None,
        c.rot is None,
        dt >= 0,
    ensures
        axis_pos_after(axis_stopped(c), speed, rot_speed, reverse, dt) == c.pos,
{
    crate::fx::lemma_fx_mul_zero_left(dt);
}

} // verus!

