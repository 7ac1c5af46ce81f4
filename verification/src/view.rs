//! The composed camera state.
//!
//! A `View` owns the five controllers — the pan center, the parameter
//! shift, the parameter exponent, the rotation and the zoom — together
//! with the shared pivot point, the last known pointer position, the
//! window size, the reverse flag and the time origin. Input events set
//! controller setpoints through the methods below; once per frame
//! `update` integrates everything in a fixed order (zoom, then rotation,
//! then the three axes) so the point under the pivot stays anchored, and
//! `uniforms` takes the immutable snapshot the renderer consumes.

use vstd::prelude::*;

use crate::axis::CoordControl;
use crate::axis::axis_moved;
use crate::axis::axis_pushed;
use crate::axis::axis_step;
use crate::clock::ClockError;
use crate::clock::Timestamp;
use crate::clock::dt_v;
use crate::complex::Cpx;
use crate::complex::sc_add;
use crate::complex::sc_scale;
use crate::complex::sc_sub;
use crate::complex::sc_zero;
use crate::direction::ButtonState;
use crate::direction::MoveDirection;
use crate::direction::RotateDirection;
use crate::direction::ZoomDirection;
use crate::fx::Fx;
use crate::fx::fx_mul_v;
use crate::fx::fx_neg_v;
use crate::rotation::RotControl;
use crate::rotation::rot_pivot_after;
use crate::rotation::rot_pushed;
use crate::rotation::rot_step;
use crate::rotation::wrap_angle;
use crate::rotation::wrap_angle_v;
use crate::trig::atan_of;
use crate::trig::cos_of;
use crate::trig::exp_arg_v;
use crate::trig::exp_of;
use crate::trig::sin_of;
use crate::trig::tan_v;
use crate::trig::TRIG_ARG_LIMIT_BITS;
use crate::trig::atan_fx;
use crate::trig::cos_fx;
use crate::trig::exp_fx;
use crate::trig::sin_fx;
use crate::trig::tan_fx;
use crate::zoom::LOG_ZOOM_MIN_BITS;
use crate::zoom::ZoomControl;
use crate::zoom::zoom_nudge;
use crate::zoom::zoom_pushed;
use crate::zoom::zoom_step;
use crate::zoom::zoom_keyed;

verus! {

/// Iteration budget handed to the renderer with every snapshot.
pub const MAX_ITERATIONS: u32 = 32;

/// Speed of the held rotation keys: a thousandth of a turn per second.
pub const ROT_SPEED_BITS: i64 = 26986075;

/// Plane-units-per-second speed of the held pan keys, before the zoom
/// correction.
pub const MOVE_CENTER_SPEED_BITS: i64 = 42949672960;

/// Speed of the held exponent keys, before the zoom correction.
pub const MOVE_EXP_SPEED_BITS: i64 = 429496730;

/// Speed of the held shift keys.
pub const MOVE_SHIFT_SPEED_BITS: i64 = 4294967;

/// Log of the factor a held zoom key applies per unit of velocity.
pub const LOG_ZOOM_MUL_BITS: i64 = -21528703;

/// Acceleration added per rotation-accelerating key event.
pub const ROT_ACCEL_BITS: i64 = 4294967296;

/// Acceleration added per pan-accelerating key event.
pub const MOVE_CENTER_ACCEL_BITS: i64 = 4294967296;

/// Acceleration added per exponent-accelerating key event.
pub const MOVE_EXP_ACCEL_BITS: i64 = 4294967296;

/// Acceleration added per shift-accelerating key event.
pub const MOVE_SHIFT_ACCEL_BITS: i64 = 4294967296;

/// Default zoom-acceleration magnitude for key events without one.
pub const MOVE_ZOOM_ACCEL_BITS: i64 = 4294967296;

/// A window size in pixels.
#[derive(Clone, Copy, Debug, PartialEq, Eq, Structural)]
pub struct WinSize {
    pub width: u32,
    pub height: u32,
}

/// The initial-view descriptor a fractal supplies: where the pivot, the
/// pan center and the two auxiliary parameters start.
#[derive(Clone, Copy, Debug, PartialEq, Eq, Structural)]
pub struct InitView {
    pub pivot: Cpx,
    pub center: Cpx,
    pub shift: Cpx,
    pub exp: Cpx,
}

impl Default for InitView {
    /// Everything at the origin.
    fn default() -> (r: InitView)
        ensures
            r == (InitView {
                pivot: sc_zero(),
                center: sc_zero(),
                shift: sc_zero(),
                exp: sc_zero(),
            }),
    {
        InitView {
            pivot: Cpx::zero(),
            center: Cpx::zero(),
            shift: Cpx::zero(),
            exp: Cpx::zero(),
        }
    }
}

/// The immutable per-frame snapshot handed to the renderer. The shift
/// and exponent controls are tangent-transformed here, so the stored
/// control values may roam an unbounded domain while the rendered
/// parameters stay usefully distributed.
#[derive(Clone, Copy, Debug, PartialEq, Eq, Structural)]
pub struct GlobalUniforms {
    /// Seconds since the view's time origin.
    pub time: Fx,
    /// Iteration budget for the renderer.
    pub max_iterations: u32,
    /// Window size in pixels.
    pub window_size: WinSize,
    /// Pan center in plane coordinates.
    pub center: Cpx,
    /// The zoom factor (back in the linear domain).
    pub zoom: Fx,
    /// View angle in radians.
    pub rot: Fx,
    /// Tangent-transformed exponent parameter.
    pub exp: Cpx,
    /// Tangent-transformed shift parameter.
    pub shift: Cpx,
}

/// The composed camera state.
#[derive(Clone, Copy, Debug, PartialEq, Eq)]
pub struct View {
    /// Last known pointer position in plane coordinates, if the pointer
    /// is inside the window.
    pub mouse_pos: Option<Cpx>,
    /// Current window size.
    pub win_size: WinSize,
    /// The shared pivot: the plane point that stays visually fixed
    /// under zoom and rotation.
    pub win_center: Cpx,
    /// Pan-center controller.
    pub center: CoordControl,
    /// Shift-parameter controller.
    pub shift: CoordControl,
    /// Exponent-parameter controller.
    pub exp: CoordControl,
    /// Rotation controller.
    pub rot: RotControl,
    /// Zoom controller.
    pub zoom: ZoomControl,
    /// Whether motion runs backward.
    pub reverse: bool,
    /// The time origin of the snapshot clock.
    pub t0: Timestamp,
}

/// The view is well formed when its five controllers agree on the
/// instant of the last update. Construction establishes this and every
/// method preserves it.
pub open spec fn view_wf(v: View) -> bool {
    &&& v.center.t == v.zoom.t
    &&& v.shift.t == v.zoom.t
    &&& v.exp.t == v.zoom.t
    &&& v.rot.t == v.zoom.t
}

/// The whole view state after one successful update at `now`: the zoom
/// steps first (nudging the pan center so the pivot stays put), then
/// the rotation (turning the pivot by the angle lost), then the three
/// axis controllers, whose held-key speeds read the new zoom and angle.
pub open spec fn view_step(v: View, now: Timestamp) -> View {
    let dt = dt_v(now, v.zoom.t);
    let wrot0 = wrap_angle_v(v.rot.pos.bits as int);
    let z1 = zoom_step(v.zoom, now, LOG_ZOOM_MUL_BITS as int, v.reverse);
    let c1 = CoordControl {
        pos: sc_add(
            v.center.pos,
            zoom_nudge(v.zoom, LOG_ZOOM_MUL_BITS as int, v.reverse, v.win_center, wrot0, dt),
        ),
        ..v.center
    };
    let r1 = rot_step(v.rot, now, ROT_SPEED_BITS as int, v.reverse);
    let w1 = rot_pivot_after(v.rot, ROT_SPEED_BITS as int, v.reverse, v.win_center, dt);
    let recip = exp_of(exp_arg_v(fx_neg_v(z1.pos.bits as int)));
    let wrot1 = wrap_angle_v(r1.pos.bits as int);
    let phase1 = Cpx {
        re: Fx { bits: cos_of(wrot1) as i64 },
        im: Fx { bits: sin_of(wrot1) as i64 },
    };
    let center_speed = sc_scale(phase1, fx_mul_v(MOVE_CENTER_SPEED_BITS as int, recip));
    let shift_speed = Cpx { re: Fx { bits: MOVE_SHIFT_SPEED_BITS }, im: Fx { bits: 0 } };
    let exp_speed = Cpx {
        re: Fx { bits: fx_mul_v(MOVE_EXP_SPEED_BITS as int, recip) as i64 },
        im: Fx { bits: 0 },
    };
    View {
        center: axis_step(c1, now, center_speed, ROT_SPEED_BITS as int, v.reverse),
        shift: axis_step(v.shift, now, shift_speed, ROT_SPEED_BITS as int, v.reverse),
        exp: axis_step(v.exp, now, exp_speed, ROT_SPEED_BITS as int, v.reverse),
        rot: r1,
        zoom: z1,
        win_center: w1,
        ..v
    }
}

/// The view state after a failed update: every controller's clock is
/// pulled to the reported instant, nothing else moves.
pub open spec fn view_clock_error(v: View, now: Timestamp) -> View {
    View {
        center: CoordControl { t: now, ..v.center },
        shift: CoordControl { t: now, ..v.shift },
        exp: CoordControl { t: now, ..v.exp },
        rot: RotControl { t: now, ..v.rot },
        zoom: ZoomControl { t: now, ..v.zoom },
        ..v
    }
}

/// The snapshot taken at `now`: a pure read of the view.
pub open spec fn view_uniforms(v: View, now: Timestamp) -> GlobalUniforms {
    GlobalUniforms {
        time: Fx { bits: dt_v(now, v.t0) as i64 },
        max_iterations: MAX_ITERATIONS,
        window_size: v.win_size,
        center: v.center.pos,
        zoom: Fx { bits: exp_of(exp_arg_v(v.zoom.pos.bits as int)) as i64 },
        rot: v.rot.pos,
        exp: Cpx {
            re: Fx { bits: tan_v(wrap_angle_v(v.exp.pos.re.bits as int)) as i64 },
            im: Fx { bits: tan_v(wrap_angle_v(v.exp.pos.im.bits as int)) as i64 },
        },
        shift: Cpx {
            re: Fx { bits: tan_v(wrap_angle_v(v.shift.pos.re.bits as int)) as i64 },
            im: Fx { bits: tan_v(wrap_angle_v(v.shift.pos.im.bits as int)) as i64 },
        },
    }
}

/// The freshly seeded view state for a descriptor: the shift and
/// exponent controls store the arc tangents of the descriptor values
/// (undone by the tangent in the snapshot), the zoom starts at the
/// range's lower bound, and motion is backward by default.
pub open spec fn view_seeded(init: InitView, win_size: WinSize, now: Timestamp) -> View {
    View {
        mouse_pos: None,
        win_size,
        win_center: init.pivot,
        center: CoordControl {
            t: now,
            pos: init.center,
            vel: sc_zero(),
            acc: sc_zero(),
            mov_x: None,
            mov_y: None,
            rot: None,
        },
        shift: CoordControl {
            t: now,
            pos: Cpx {
                re: Fx { bits: atan_of(init.shift.re.bits as int) as i64 },
                im: Fx { bits: atan_of(init.shift.im.bits as int) as i64 },
            },
            vel: sc_zero(),
            acc: sc_zero(),
            mov_x: None,
            mov_y: None,
            rot: None,
        },
        exp: CoordControl {
            t: now,
            pos: Cpx {
                re: Fx { bits: atan_of(init.exp.re.bits as int) as i64 },
                im: Fx { bits: atan_of(init.exp.im.bits as int) as i64 },
            },
            vel: sc_zero(),
            acc: sc_zero(),
            mov_x: None,
            mov_y: None,
            rot: None,
        },
        rot: RotControl {
            t: now,
            pos: Fx { bits: 0 },
            vel: Fx { bits: 0 },
            acc: Fx { bits: 0 },
            mov: None,
        },
        zoom: ZoomControl {
            t: now,
            pos: Fx { bits: LOG_ZOOM_MIN_BITS },
            vel: Fx { bits: 0 },
            acc: Fx { bits: 0 },
            brk: Fx { bits: 0 },
            mov: None,
            base: Fx { bits: crate::zoom::ZOOM_BASE_BITS },
            min: Fx { bits: LOG_ZOOM_MIN_BITS },
            max: Fx { bits: crate::zoom::LOG_ZOOM_MAX_BITS },
        },
        reverse: true,
        t0: now,
    }
}

/// The view after a partial reset: everything re-seeded from the
/// descriptor as in a fresh view with the old window size, except that
/// the held-direction flags of all five controllers and the reverse
/// flag keep their old values.
pub open spec fn view_reset_state(v: View, init: InitView, now: Timestamp) -> View {
    let fresh = view_seeded(init, v.win_size, now);
    View {
        center: CoordControl {
            mov_x: v.center.mov_x,
            mov_y: v.center.mov_y,
            rot: v.center.rot,
            ..fresh.center
        },
        shift: CoordControl {
            mov_x: v.shift.mov_x,
            mov_y: v.shift.mov_y,
            rot: v.shift.rot,
            ..fresh.shift
        },
        exp: CoordControl {
            mov_x: v.exp.mov_x,
            mov_y: v.exp.mov_y,
            rot: v.exp.rot,
            ..fresh.exp
        },
        rot: RotControl { mov: v.rot.mov, ..fresh.rot },
        zoom: ZoomControl { mov: v.zoom.mov, ..fresh.zoom },
        reverse: v.reverse,
        ..fresh
    }
}

impl View {
    /// Seed a view from a fractal's initial-view descriptor.
    pub fn new(init: InitView, win_size: WinSize, now: Timestamp) -> (r: View)
        requires
            -TRIG_ARG_LIMIT_BITS <= init.shift.re.bits <= TRIG_ARG_LIMIT_BITS,
            -TRIG_ARG_LIMIT_BITS <= init.shift.im.bits <= TRIG_ARG_LIMIT_BITS,
            -TRIG_ARG_LIMIT_BITS <= init.exp.re.bits <= TRIG_ARG_LIMIT_BITS,
            -TRIG_ARG_LIMIT_BITS <= init.exp.im.bits <= TRIG_ARG_LIMIT_BITS,
        ensures
            r == view_seeded(init, win_size, now),
            view_wf(r),
    {
        let shift_pos = Cpx { re: atan_fx(init.shift.re), im: atan_fx(init.shift.im) };
        let exp_pos = Cpx { re: atan_fx(init.exp.re), im: atan_fx(init.exp.im) };
        View {
            mouse_pos: None,
            win_size,
            win_center: init.pivot,
            center: CoordControl::new(init.center, Cpx::zero(), now),
            shift: CoordControl::new(shift_pos, Cpx::zero(), now),
            exp: CoordControl::new(exp_pos, Cpx::zero(), now),
            rot: RotControl::new(Fx::zero(), Fx::zero(), now),
            zoom: ZoomControl::new(Fx { bits: LOG_ZOOM_MIN_BITS }, Fx::zero(), now),
            reverse: true,
            t0: now,
        }
    }

    /// Integrate all five controllers up to `now`, in the fixed order:
    /// zoom (which compensates the pan center around the pivot), then
    /// rotation (which re-anchors the pivot), then the pan center, the
    /// shift and the exponent. Fails, moving nothing but the clocks,
    /// exactly when `now` lies before the previous update.
    pub fn update(&mut self, now: Timestamp) -> (r: Result<(), ClockError>)
        requires
            view_wf(*old(self)),
        ensures
            view_wf(*final(self)),
            now.ticks >= old(self).zoom.t.ticks ==> r is Ok && *final(self) == view_step(
                *old(self),
                now,
            ),
            now.ticks < old(self).zoom.t.ticks ==> r is Err && *final(self) == view_clock_error(
                *old(self),
                now,
            ),
    {
        if now.ticks < self.zoom.t.ticks {
            self.center.t = now;
            self.shift.t = now;
            self.exp.t = now;
            self.rot.t = now;
            self.zoom.t = now;
            return Err(ClockError);
        }
        let wrot0 = wrap_angle(self.rot.pos);
        let reverse = self.reverse;
        let win_center = self.win_center;
        self.zoom.update(
            now,
            Fx { bits: LOG_ZOOM_MUL_BITS },
            reverse,
            &mut self.center,
            win_center,
            wrot0,
        )?;
        self.rot.update(now, Fx { bits: ROT_SPEED_BITS }, reverse, &mut self.win_center)?;
        let recip = exp_fx(self.zoom.pos.neg());
        let wrot1 = wrap_angle(self.rot.pos);
        let cos1 = cos_fx(wrot1);
        let sin1 = sin_fx(wrot1);
        let center_speed = Cpx { re: cos1, im: sin1 }.scale(
            Fx { bits: MOVE_CENTER_SPEED_BITS }.mul(recip),
        );
        let shift_speed = Cpx { re: Fx { bits: MOVE_SHIFT_SPEED_BITS }, im: Fx { bits: 0 } };
        let exp_speed = Cpx {
            re: Fx { bits: MOVE_EXP_SPEED_BITS }.mul(recip),
            im: Fx { bits: 0 },
        };
        self.center.update(now, center_speed, Fx { bits: ROT_SPEED_BITS }, reverse)?;
        self.shift.update(now, shift_speed, Fx { bits: ROT_SPEED_BITS }, reverse)?;
        self.exp.update(now, exp_speed, Fx { bits: ROT_SPEED_BITS }, reverse)?;
        Ok(())
    }

    /// Take the renderer's snapshot at `now`: a pure read.
    pub fn uniforms(&self, now: Timestamp) -> (r: GlobalUniforms)
        requires
            now.ticks >= self.t0.ticks,
        ensures
            r == view_uniforms(*self, now),
    {
        let time = match now.elapsed_since(self.t0) {
            Ok(d) => d,
            Err(_) => Fx::zero(),
        };
        GlobalUniforms {
            time,
            max_iterations: MAX_ITERATIONS,
            window_size: self.win_size,
            center: self.center.pos,
            zoom: exp_fx(self.zoom.pos),
            rot: self.rot.pos,
            exp: Cpx {
                re: tan_fx(wrap_angle(self.exp.pos.re)),
                im: tan_fx(wrap_angle(self.exp.pos.im)),
            },
            shift: Cpx {
                re: tan_fx(wrap_angle(self.shift.pos.re)),
                im: tan_fx(wrap_angle(self.shift.pos.im)),
            },
        }
    }

    /// Record the pointer position, given in window pixels, as a
    /// plane-relative coordinate; a degenerate window clears it.
    pub fn update_mouse_pos(&mut self, pos: Cpx)
        ensures
            old(self).win_size.width == 0 && old(self).win_size.height == 0 ==> *final(self)
                == (View { mouse_pos: None, ..*old(self) }),
            old(self).win_size.width != 0 || old(self).win_size.height != 0 ==> *final(self)
                == (View {
                mouse_pos: Some(sc_sub(pos, win_half(old(self).win_size))),
                ..*old(self)
            }),
    {
        if self.win_size.width == 0 && self.win_size.height == 0 {
            self.mouse_pos = None;
        } else {
            let half = Cpx {
                re: Fx { bits: (self.win_size.width as i64) * 0x8000_0000i64 },
                im: Fx { bits: (self.win_size.height as i64) * 0x8000_0000i64 },
            };
            self.mouse_pos = Some(pos.sub(half));
        }
    }

    /// Make the last pointer position the new pivot, if one is known.
    pub fn recenter(&mut self)
        ensures
            old(self).mouse_pos matches Some(p) ==> *final(self) == (View {
                win_center: p,
                ..*old(self)
            }),
            old(self).mouse_pos is None ==> *final(self) == *old(self),
    {
        if let Some(p) = self.mouse_pos {
            self.win_center = p;
        }
    }

    /// Record a new window size.
    pub fn resize(&mut self, win_size: WinSize)
        ensures
            *final(self) == (View { win_size, ..*old(self) }),
    {
        self.win_size = win_size;
    }

    /// Re-seed the view from the descriptor: positions, velocities,
    /// accelerations, brake, pivot, zoom and the time origin start
    /// over, while the window size, every held-direction flag and the
    /// reverse flag persist — a reset is partial, and the discrete key
    /// state outlives it.
    pub fn reset(&mut self, init: InitView, now: Timestamp)
        requires
            -TRIG_ARG_LIMIT_BITS <= init.shift.re.bits <= TRIG_ARG_LIMIT_BITS,
            -TRIG_ARG_LIMIT_BITS <= init.shift.im.bits <= TRIG_ARG_LIMIT_BITS,
            -TRIG_ARG_LIMIT_BITS <= init.exp.re.bits <= TRIG_ARG_LIMIT_BITS,
            -TRIG_ARG_LIMIT_BITS <= init.exp.im.bits <= TRIG_ARG_LIMIT_BITS,
        ensures
            *final(self) == view_reset_state(*old(self), init, now),
            view_wf(*final(self)),
    {
        let fresh = View::new(init, self.win_size, now);
        let next = View {
            center: CoordControl {
                mov_x: self.center.mov_x,
                mov_y: self.center.mov_y,
                rot: self.center.rot,
                ..fresh.center
            },
            shift: CoordControl {
                mov_x: self.shift.mov_x,
                mov_y: self.shift.mov_y,
                rot: self.shift.rot,
                ..fresh.shift
            },
            exp: CoordControl {
                mov_x: self.exp.mov_x,
                mov_y: self.exp.mov_y,
                rot: self.exp.rot,
                ..fresh.exp
            },
            rot: RotControl { mov: self.rot.mov, ..fresh.rot },
            zoom: ZoomControl { mov: self.zoom.mov, ..fresh.zoom },
            reverse: self.reverse,
            ..fresh
        };
        *self = next;
    }

    /// Restart the snapshot clock.
    pub fn reset_time(&mut self, now: Timestamp)
        ensures
            *final(self) == (View { t0: now, ..*old(self) }),
    {
        self.t0 = now;
    }

    /// The current window size.
    pub fn win_size(&self) -> (r: WinSize)
        ensures
            r == self.win_size,
    {
        self.win_size
    }

    /// A pressed reverse key flips the direction of all motion.
    pub fn reverse(&mut self, button_state: ButtonState)
        ensures
            *final(self) == (View {
                reverse: match button_state {
                    ButtonState::Pressed => !old(self).reverse,
                    ButtonState::Released => old(self).reverse,
                },
                ..*old(self)
            }),
    {
        if let ButtonState::Pressed = button_state {
            self.reverse = !self.reverse;
        }
    }

    /// Press or release a held pan key.
    pub fn move_center(&mut self, direction: MoveDirection, button_state: ButtonState)
        ensures
            *final(self) == (View {
                center: axis_moved(old(self).center, direction, button_state),
                ..*old(self)
            }),
    {
        self.center.mov(direction, button_state);
    }

    /// Press or release a held shift key.
    pub fn move_shift(&mut self, direction: MoveDirection, button_state: ButtonState)
        ensures
            *final(self) == (View {
                shift: axis_moved(old(self).shift, direction, button_state),
                ..*old(self)
            }),
    {
        self.shift.mov(direction, button_state);
    }

    /// Press or release a held exponent key.
    pub fn move_exp(&mut self, direction: MoveDirection, button_state: ButtonState)
        ensures
            *final(self) == (View {
                exp: axis_moved(old(self).exp, direction, button_state),
                ..*old(self)
            }),
    {
        self.exp.mov(direction, button_state);
    }

    /// Press or release a held rotation key.
    pub fn rotate(&mut self, direction: RotateDirection, button_state: ButtonState)
        ensures
            *final(self) == (View {
                rot: crate::rotation::rot_keyed(old(self).rot, direction, button_state),
                ..*old(self)
            }),
    {
        self.rot.rot(direction, button_state);
    }

    /// Press or release a held zoom key.
    pub fn move_zoom(&mut self, direction: ZoomDirection, button_state: ButtonState)
        ensures
            *final(self) == (View {
                zoom: zoom_keyed(old(self).zoom, direction, button_state),
                ..*old(self)
            }),
    {
        self.zoom.mov(direction, button_state);
    }

    /// Accelerate the pan center along a key's axis, or stop it.
    pub fn accel_center(&mut self, direction: Option<MoveDirection>)
        ensures
            *final(self) == (View {
                center: axis_pushed(
                    old(self).center,
                    accel_arg(direction, MOVE_CENTER_ACCEL_BITS as int),
                ),
                ..*old(self)
            }),
    {
        self.center.push(
            match direction {
                Some(d) => Some((d, Fx { bits: MOVE_CENTER_ACCEL_BITS })),
                None => None,
            },
        );
    }

    /// Accelerate the shift parameter along a key's axis, or stop it.
    pub fn accel_shift(&mut self, direction: Option<MoveDirection>)
        ensures
            *final(self) == (View {
                shift: axis_pushed(
                    old(self).shift,
                    accel_arg(direction, MOVE_SHIFT_ACCEL_BITS as int),
                ),
                ..*old(self)
            }),
    {
        self.shift.push(
            match direction {
                Some(d) => Some((d, Fx { bits: MOVE_SHIFT_ACCEL_BITS })),
                None => None,
            },
        );
    }

    /// Accelerate the exponent parameter along a key's axis, or stop it.
    pub fn accel_exp(&mut self, direction: Option<MoveDirection>)
        ensures
            *final(self) == (View {
                exp: axis_pushed(old(self).exp, accel_arg(direction, MOVE_EXP_ACCEL_BITS as int)),
                ..*old(self)
            }),
    {
        self.exp.push(
            match direction {
                Some(d) => Some((d, Fx { bits: MOVE_EXP_ACCEL_BITS })),
                None => None,
            },
        );
    }

    /// Accelerate the rotation, or stop it.
    pub fn accel_rot(&mut self, direction: Option<RotateDirection>)
        ensures
            *final(self) == (View {
                rot: rot_pushed(old(self).rot, rot_accel_arg(direction, ROT_ACCEL_BITS as int)),
                ..*old(self)
            }),
    {
        self.rot.push(
            match direction {
                Some(d) => Some((d, Fx { bits: ROT_ACCEL_BITS })),
                None => None,
            },
        );
    }

    /// Accelerate the zoom by the given magnitude (or the default one),
    /// scaled into the log domain, or stop it.
    pub fn accel_zoom(&mut self, direction: Option<ZoomDirection>, accel: Option<Fx>)
        ensures
            *final(self) == (View {
                zoom: zoom_pushed(old(self).zoom, zoom_accel_arg(direction, accel)),
                ..*old(self)
            }),
    {
        let magnitude = Fx { bits: LOG_ZOOM_MUL_BITS }.mul(
            match accel {
                Some(a) => a,
                None => Fx { bits: MOVE_ZOOM_ACCEL_BITS },
            },
        );
        self.zoom.push(
            match direction {
                Some(d) => Some((d, magnitude)),
                None => None,
            },
        );
    }
}

/// With every controller stopped and nothing held, a frame moves
/// nothing: the pan center, the shift, the exponent, the angle, the
/// scale and the pivot all come out of `update` exactly as they went
/// in.
pub proof fn lemma_view_stop_no_motion(v: View, now: Timestamp)
    requires
        view_wf(v),
        now.ticks >= v.zoom.t.ticks,
        v.center.vel == sc_zero(),
        v.center.acc == sc_zero(),
        v.center.mov_x is None,
        v.center.mov_y is None,
        v.center.rot is None,
        v.shift.vel == sc_zero(),
        v.shift.acc == sc_zero(),
        v.shift.mov_x is None,
        v.shift.mov_y is None,
        v.shift.rot is None,
        v.exp.vel == sc_zero(),
        v.exp.acc == sc_zero(),
        v.exp.mov_x is None,
        v.exp.mov_y is None,
        v.exp.rot is None,
        v.rot.vel.bits == 0,
        v.rot.acc.bits == 0,
        v.rot.mov is None,
        v.zoom.vel.bits == 0,
        v.zoom.acc.bits == 0,
        v.zoom.brk.bits == 0,
        v.zoom.mov is None,
    ensures
        view_step(v, now).center.pos == v.center.pos,
        view_step(v, now).shift.pos == v.shift.pos,
        view_step(v, now).exp.pos == v.exp.pos,
        view_step(v, now).rot.pos == v.rot.pos,
        view_step(v, now).zoom.pos == v.zoom.pos,
        view_step(v, now).win_center == v.win_center,
{
    let dt = dt_v(now, v.zoom.t);
    let wrot0 = wrap_angle_v(v.rot.pos.bits as int);

    assert(crate::zoom::zoom_stopped(v.zoom) == v.zoom);
    crate::zoom::lemma_zoom_stop_no_motion(v.zoom, LOG_ZOOM_MUL_BITS as int, v.reverse, dt);
    let z1 = zoom_step(v.zoom, now, LOG_ZOOM_MUL_BITS as int, v.reverse);
    assert(z1.pos == v.zoom.pos);

    // The scale did not move, so the reciprocal-scale change is zero and
    // the pivot compensation vanishes.
    let nudge = zoom_nudge(v.zoom, LOG_ZOOM_MUL_BITS as int, v.reverse, v.win_center, wrot0, dt);
    crate::fx::lemma_fx_mul_zero_left((cos_of(wrot0) as i64) as int);
    crate::fx::lemma_fx_mul_zero_left((sin_of(wrot0) as i64) as int);
    assert(nudge == sc_zero());
    let c1 = CoordControl { pos: sc_add(v.center.pos, nudge), ..v.center };
    assert(c1.pos == v.center.pos);

    assert(crate::rotation::rot_stopped(v.rot) == v.rot);
    crate::rotation::lemma_rot_stop_no_motion(v.rot, ROT_SPEED_BITS as int, v.reverse, dt);
    let r1 = rot_step(v.rot, now, ROT_SPEED_BITS as int, v.reverse);
    assert(r1.pos == v.rot.pos);

    // The angle did not move either, so the pivot stays untouched.
    assert(crate::rotation::rot_pivot_angle(v.rot, ROT_SPEED_BITS as int, v.reverse, dt) == 0);
    assert(rot_pivot_after(v.rot, ROT_SPEED_BITS as int, v.reverse, v.win_center, dt)
        == v.win_center);

    let recip = exp_of(exp_arg_v(fx_neg_v(z1.pos.bits as int)));
    let wrot1 = wrap_angle_v(r1.pos.bits as int);
    let phase1 = Cpx {
        re: Fx { bits: cos_of(wrot1) as i64 },
        im: Fx { bits: sin_of(wrot1) as i64 },
    };
    let center_speed = sc_scale(phase1, fx_mul_v(MOVE_CENTER_SPEED_BITS as int, recip));
    let shift_speed = Cpx { re: Fx { bits: MOVE_SHIFT_SPEED_BITS }, im: Fx { bits: 0 } };
    let exp_speed = Cpx {
        re: Fx { bits: fx_mul_v(MOVE_EXP_SPEED_BITS as int, recip) as i64 },
        im: Fx { bits: 0 },
    };

    assert(crate::axis::axis_stopped(c1) == c1);
    crate::axis::lemma_axis_stop_no_motion(c1, center_speed, ROT_SPEED_BITS as int, v.reverse, dt);
    assert(crate::axis::axis_stopped(v.shift) == v.shift);
    crate::axis::lemma_axis_stop_no_motion(
        v.shift,
        shift_speed,
        ROT_SPEED_BITS as int,
        v.reverse,
        dt,
    );
    assert(crate::axis::axis_stopped(v.exp) == v.exp);
    crate::axis::lemma_axis_stop_no_motion(v.exp, exp_speed, ROT_SPEED_BITS as int, v.reverse, dt);
}

/// Half the window, as a plane offset: the pointer coordinate is taken
/// relative to the window's center.
pub open spec fn win_half(w: WinSize) -> Cpx {
    Cpx {
        re: Fx { bits: (w.width * 0x8000_0000) as i64 },
        im: Fx { bits: (w.height * 0x8000_0000) as i64 },
    }
}

/// The argument an axis-accelerating key event passes on: the direction
/// with the configured magnitude.
pub open spec fn accel_arg(direction: Option<MoveDirection>, accel: int) -> Option<
    (MoveDirection, Fx),
> {
    match direction {
        Some(d) => Some((d, Fx { bits: accel as i64 })),
        None => None,
    }
}

/// The argument a rotation-accelerating key event passes on.
pub open spec fn rot_accel_arg(direction: Option<RotateDirection>, accel: int) -> Option<
    (RotateDirection, Fx),
> {
    match direction {
        Some(d) => Some((d, Fx { bits: accel as i64 })),
        None => None,
    }
}

/// The argument a zoom-accelerating key event passes on: the held
/// factor's log, scaled by the event's magnitude (or the default one).
pub open spec fn zoom_accel_arg(direction: Option<ZoomDirection>, accel: Option<Fx>) -> Option<
    (ZoomDirection, Fx),
> {
    let a = match accel {
        Some(a) => a.bits as int,
        None => MOVE_ZOOM_ACCEL_BITS as int,
    };
    match direction {
        Some(d) => Some((d, Fx { bits: fx_mul_v(LOG_ZOOM_MUL_BITS as int, a) as i64 })),
        None => None,
    }
}

} // verus!

