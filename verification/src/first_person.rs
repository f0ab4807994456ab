//! A 3D first-person camera controller.
//!
//! The controller owns the movement settings, the active movement flags,
//! the yaw and pitch angles, and the world position. The host toggles
//! flags on input edges, feeds pointer deltas through [`FirstPerson::update_mouse`],
//! and advances the position once per frame through [`FirstPerson::update`],
//! supplying the sine and cosine of the current yaw (the one quantity the
//! exact fixed-point core leaves to the host's trigonometry).

use vstd::prelude::*;
use vstd::arithmetic::div_mod::lemma_div_by_multiple;
use vstd::arithmetic::div_mod::lemma_div_is_ordered;
use vstd::arithmetic::div_mod::lemma_div_pos_is_pos;

use crate::actions::Action;
use crate::actions::Actions;
use crate::actions::axis_sign;
use crate::actions::direction_x;
use crate::actions::direction_y;
use crate::actions::direction_z;
use crate::fixed::Fx;
use crate::fixed::FX_SCALE;
use crate::fixed::add_bits;
use crate::fixed::floor_rem;
use crate::fixed::lemma_mul_bits_zero;
use crate::fixed::mul_bits;
use crate::fixed::sub_bits;
use crate::fixed::tdiv;

verus! {

/// Half a turn, in fixed-point radians (pi, truncated to millionths).
pub const PI_BITS: i64 = 3_141_592;

/// A quarter turn, in fixed-point radians.
pub const HALF_PI_BITS: i64 = 1_570_796;

/// A full turn, in fixed-point radians.
pub const TWO_PI_BITS: i64 = 6_283_184;

/// Pointer units per full 360-unit sweep, times the quarter-pi divisor:
/// one pointer unit turns the camera by `PI_BITS / 1440` fixed-point
/// radians (the 360-unit convention divided by four).
pub const LOOK_UNITS: i64 = 1_440;

/// First person camera settings.
#[derive(Clone, Copy, Debug, PartialEq, Eq, Structural)]
pub struct FirstPersonSettings {
    /// The horizontal movement speed, in units per second.
    pub speed_horizontal: Fx,
    /// The vertical movement speed, in units per second.
    pub speed_vertical: Fx,
    /// The multiplier applied to horizontal pointer movements.
    pub mouse_sensitivity_horizontal: Fx,
    /// The multiplier applied to vertical pointer movements.
    pub mouse_sensitivity_vertical: Fx,
}

impl Default for FirstPersonSettings {
    /// Creates settings with every tunable equal to one.
    fn default() -> (r: FirstPersonSettings)
        ensures
            r.speed_horizontal.bits == FX_SCALE,
            r.speed_vertical.bits == FX_SCALE,
            r.mouse_sensitivity_horizontal.bits == FX_SCALE,
            r.mouse_sensitivity_vertical.bits == FX_SCALE,
    {
        FirstPersonSettings {
            speed_horizontal: Fx::one(),
            speed_vertical: Fx::one(),
            mouse_sensitivity_horizontal: Fx::one(),
            mouse_sensitivity_vertical: Fx::one(),
        }
    }
}

/// A world-space point.
#[derive(Clone, Copy, Debug, PartialEq, Eq, Structural)]
pub struct Vec3 {
    pub x: Fx,
    pub y: Fx,
    pub z: Fx,
}

/// A camera pose: where the camera stands and where it looks.
#[derive(Clone, Copy, Debug, PartialEq, Eq, Structural)]
pub struct Pose {
    /// The world-space position.
    pub position: Vec3,
    /// The yaw angle, in fixed-point radians.
    pub yaw: Fx,
    /// The pitch angle, in fixed-point radians.
    pub pitch: Fx,
}

/// What one pointer unit times the sensitivity turns into, in fixed-point
/// radians: the scaled delta is divided by 360 input units and by the
/// quarter-pi divisor, truncating toward zero.
pub open spec fn look_delta_bits(rel: int, sens: int) -> int {
    tdiv(mul_bits(rel, sens) * (PI_BITS as int), (FX_SCALE as int) * (LOOK_UNITS as int))
}

/// Pitch clamped into `[-HALF_PI_BITS, HALF_PI_BITS]`: the camera
/// saturates at the poles instead of flipping over the top.
pub open spec fn clamp_pitch_bits(t: int) -> int {
    if t > HALF_PI_BITS as int {
        HALF_PI_BITS as int
    } else if t < -(HALF_PI_BITS as int) {
        -(HALF_PI_BITS as int)
    } else {
        t
    }
}

/// A fixed-point product of non-negative factors is non-negative.
pub proof fn lemma_mul_bits_nonneg(a: int, b: int)
    requires
        0 <= a,
        0 <= b,
    ensures
        0 <= mul_bits(a, b),
{
    assert(0 <= a * b) by (nonlinear_arith)
        requires
            0 <= a,
            0 <= b,
    ;
    if a * b > 0 {
        lemma_div_pos_is_pos(a * b, FX_SCALE as int);
    }
}

/// A non-negative pointer delta with a non-negative sensitivity never
/// turns into a negative look delta.
pub proof fn lemma_look_delta_nonneg(rel: int, sens: int)
    requires
        0 <= rel,
        0 <= sens,
    ensures
        0 <= look_delta_bits(rel, sens),
{
    lemma_mul_bits_nonneg(rel, sens);
    let m: int = mul_bits(rel, sens);
    assert(0 <= m * (PI_BITS as int)) by (nonlinear_arith)
        requires
            0 <= m,
    ;
    if m * (PI_BITS as int) > 0 {
        lemma_div_pos_is_pos(m * (PI_BITS as int), (FX_SCALE as int) * (LOOK_UNITS as int));
    }
}

/// Converts a raw pointer delta, already paired with its sensitivity,
/// into a fixed-point radian delta.
fn look_delta(rel: Fx, sens: Fx) -> (r: Fx)
    ensures
        r.bits == look_delta_bits(rel.bits as int, sens.bits as int),
{
    let scaled: Fx = rel.sat_mul(sens);
    proof {
        let sb: int = scaled.bits as int;
        assert(sb * 3_141_592 <= 0x8000_0000_0000_0000 * 3_141_592
            && -(0x8000_0000_0000_0000 * 3_141_592) <= sb * 3_141_592) by (nonlinear_arith)
            requires
                -0x8000_0000_0000_0000 <= sb <= 0x7fff_ffff_ffff_ffff,
        ;
    }
    let p: i128 = (scaled.bits as i128) * (PI_BITS as i128);
    let d: u128 = 1_440_000_000;
    proof {
        assert(d as int == (FX_SCALE as int) * (LOOK_UNITS as int)) by (nonlinear_arith)
            requires
                FX_SCALE == 1_000_000,
                LOOK_UNITS == 1_440,
                d == 1_440_000_000u128,
        ;
    }
    if p >= 0 {
        let qu: u128 = (p as u128) / d;
        proof {
            lemma_div_is_ordered(p as int, (0x8000_0000_0000_0000 * 3_141_592) as int, d as int);
        }
        Fx { bits: qu as i64 }
    } else {
        let mag: u128 = (-p) as u128;
        let qu: u128 = mag / d;
        proof {
            lemma_div_is_ordered(mag as int, (0x8000_0000_0000_0000 * 3_141_592) as int, d as int);
        }
        Fx { bits: -(qu as i64) }
    }
}

/// Clamps a pitch angle to the poles.
fn clamp_pitch(t: Fx) -> (r: Fx)
    ensures
        r.bits == clamp_pitch_bits(t.bits as int),
{
    if t.bits > HALF_PI_BITS {
        Fx { bits: HALF_PI_BITS }
    } else if t.bits < -HALF_PI_BITS {
        Fx { bits: -HALF_PI_BITS }
    } else {
        t
    }
}

/// Resolves one axis of opposing flags into a fixed-point sign.
fn axis_value(pos: bool, neg: bool) -> (r: Fx)
    ensures
        r.bits == FX_SCALE * axis_sign(pos, neg),
{
    if pos && neg {
        Fx { bits: 0 }
    } else if pos {
        Fx { bits: FX_SCALE }
    } else if neg {
        Fx { bits: -FX_SCALE }
    } else {
        Fx { bits: 0 }
    }
}

/// Models a flying first person camera.
#[derive(Clone, Copy, Debug, PartialEq, Eq, Structural)]
pub struct FirstPerson {
    /// The first person camera settings.
    pub settings: FirstPersonSettings,
    /// The yaw angle, in fixed-point radians, kept in `[0, TWO_PI_BITS)`.
    pub yaw: Fx,
    /// The pitch angle, in fixed-point radians, kept in
    /// `[-HALF_PI_BITS, HALF_PI_BITS]`.
    pub pitch: Fx,
    /// The position of the camera.
    pub position: Vec3,
    /// The velocity we are moving: a scalar multiplier on the horizontal
    /// speed, left for the host to modulate.
    pub velocity: Fx,
    /// The active actions.
    pub actions: Actions,
}

impl FirstPerson {
    /// The angle invariant: yaw wrapped into one turn, pitch clamped to
    /// the poles.
    pub open spec fn wf(self) -> bool {
        &&& 0 <= self.yaw.bits < TWO_PI_BITS
        &&& -HALF_PI_BITS <= self.pitch.bits <= HALF_PI_BITS
    }

    /// The world displacement one frame step adds to the position:
    /// the local direction is rotated into world space by the supplied
    /// yaw sine and cosine, and scaled by elapsed time and speeds.
    pub open spec fn spec_displacement(self, dt: int, yaw_sin: int, yaw_cos: int) -> (int, int, int) {
        let dh = mul_bits(
            mul_bits(dt, self.velocity.bits as int),
            self.settings.speed_horizontal.bits as int,
        );
        let dx = FX_SCALE * direction_x(self.actions);
        let dy = FX_SCALE * direction_y(self.actions);
        let dz = FX_SCALE * direction_z(self.actions);
        (
            mul_bits(sub_bits(mul_bits(yaw_sin, dx), mul_bits(yaw_cos, dz)), dh),
            mul_bits(mul_bits(dy, dt), self.settings.speed_vertical.bits as int),
            mul_bits(add_bits(mul_bits(yaw_sin, dz), mul_bits(yaw_cos, dx)), dh),
        )
    }

    /// The position after one frame step.
    pub open spec fn spec_step_position(self, dt: int, yaw_sin: int, yaw_cos: int) -> (int, int, int) {
        let w = self.spec_displacement(dt, yaw_sin, yaw_cos);
        (
            add_bits(self.position.x.bits as int, w.0),
            add_bits(self.position.y.bits as int, w.1),
            add_bits(self.position.z.bits as int, w.2),
        )
    }

    /// Creates a new first person camera, facing yaw zero and pitch zero,
    /// with unit velocity and no active actions.
    pub fn new(position: Vec3, settings: FirstPersonSettings) -> (r: FirstPerson)
        ensures
            r.settings == settings,
            r.position == position,
            r.yaw.bits == 0,
            r.pitch.bits == 0,
            r.velocity.bits == FX_SCALE,
            r.actions.bits == 0,
            r.wf(),
    {
        FirstPerson {
            settings,
            yaw: Fx::zero(),
            pitch: Fx::zero(),
            position,
            velocity: Fx::one(),
            actions: Actions::empty(),
        }
    }

    /// Gets the direction of movement: one fixed-point sign per local
    /// axis, with opposing flags cancelling to zero.
    pub fn movement_direction(&self) -> (r: (Fx, Fx, Fx))
        ensures
            r.0.bits == FX_SCALE * direction_x(self.actions),
            r.1.bits == FX_SCALE * direction_y(self.actions),
            r.2.bits == FX_SCALE * direction_z(self.actions),
    {
        let dx = axis_value(
            self.actions.is_active(Action::StrafeLeft),
            self.actions.is_active(Action::StrafeRight),
        );
        let dy = axis_value(
            self.actions.is_active(Action::FlyUp),
            self.actions.is_active(Action::FlyDown),
        );
        let dz = axis_value(
            self.actions.is_active(Action::MoveForward),
            self.actions.is_active(Action::MoveBackward),
        );
        (dx, dy, dz)
    }

    /// Computes the camera pose after `dt` elapsed seconds, without
    /// touching the camera itself. `yaw_sin` and `yaw_cos` are the sine
    /// and cosine of the current yaw, supplied by the host.
    pub fn camera(&self, dt: Fx, yaw_sin: Fx, yaw_cos: Fx) -> (pose: Pose)
        ensures
            pose.yaw == self.yaw,
            pose.pitch == self.pitch,
            ({
                let p = self.spec_step_position(dt.bits as int, yaw_sin.bits as int, yaw_cos.bits as int);
                pose.position.x.bits == p.0 && pose.position.y.bits == p.1 && pose.position.z.bits == p.2
            }),
    {
        let dh: Fx = dt.sat_mul(self.velocity).sat_mul(self.settings.speed_horizontal);
        let (dx, dy, dz) = self.movement_direction();
        let wx: Fx = yaw_sin.sat_mul(dx).sat_sub(yaw_cos.sat_mul(dz)).sat_mul(dh);
        let wy: Fx = dy.sat_mul(dt).sat_mul(self.settings.speed_vertical);
        let wz: Fx = yaw_sin.sat_mul(dz).sat_add(yaw_cos.sat_mul(dx)).sat_mul(dh);
        Pose {
            position: Vec3 {
                x: self.position.x.sat_add(wx),
                y: self.position.y.sat_add(wy),
                z: self.position.z.sat_add(wz),
            },
            yaw: self.yaw,
            pitch: self.pitch,
        }
    }

    /// Updates the camera position for `dt` elapsed seconds; yaw and
    /// pitch change only through pointer look.
    pub fn update(&mut self, dt: Fx, yaw_sin: Fx, yaw_cos: Fx)
        ensures
            ({
                let p = old(self).spec_step_position(dt.bits as int, yaw_sin.bits as int, yaw_cos.bits as int);
                final(self).position.x.bits == p.0
                    && final(self).position.y.bits == p.1
                    && final(self).position.z.bits == p.2
            }),
            final(self).settings == old(self).settings,
            final(self).yaw == old(self).yaw,
            final(self).pitch == old(self).pitch,
            final(self).velocity == old(self).velocity,
            final(self).actions == old(self).actions,
    {
        let pose = self.camera(dt, yaw_sin, yaw_cos);
        self.position = pose.position;
    }

    /// Updates the camera for a pointer movement: yaw decreases by the
    /// horizontal look delta and wraps into `[0, TWO_PI_BITS)`; pitch
    /// grows by the vertical look delta and clamps at the poles.
    pub fn update_mouse(&mut self, relative_dx: Fx, relative_dy: Fx)
        ensures
            final(self).yaw.bits == sub_bits(
                old(self).yaw.bits as int,
                look_delta_bits(
                    relative_dx.bits as int,
                    old(self).settings.mouse_sensitivity_horizontal.bits as int,
                ),
            ) % (TWO_PI_BITS as int),
            0 <= final(self).yaw.bits < TWO_PI_BITS,
            final(self).pitch.bits == clamp_pitch_bits(add_bits(
                old(self).pitch.bits as int,
                look_delta_bits(
                    relative_dy.bits as int,
                    old(self).settings.mouse_sensitivity_vertical.bits as int,
                ),
            )),
            -HALF_PI_BITS <= final(self).pitch.bits <= HALF_PI_BITS,
            final(self).position == old(self).position,
            final(self).settings == old(self).settings,
            final(self).velocity == old(self).velocity,
            final(self).actions == old(self).actions,
    {
        let ddx: Fx = look_delta(relative_dx, self.settings.mouse_sensitivity_horizontal);
        let ddy: Fx = look_delta(relative_dy, self.settings.mouse_sensitivity_vertical);
        let shifted: Fx = self.yaw.sat_sub(ddx);
        self.yaw = Fx { bits: floor_rem(shifted.bits, TWO_PI_BITS) };
        let raised: Fx = self.pitch.sat_add(ddy);
        self.pitch = clamp_pitch(raised);
    }

    /// Turns the given flags on (bitwise OR into the active set).
    pub fn enable_actions(&mut self, actions: Actions)
        ensures
            final(self).actions.bits == (old(self).actions.bits | actions.bits),
            final(self).settings == old(self).settings,
            final(self).yaw == old(self).yaw,
            final(self).pitch == old(self).pitch,
            final(self).position == old(self).position,
            final(self).velocity == old(self).velocity,
    {
        self.actions = self.actions.union(actions);
    }

    /// Turns the given flags off (bitwise AND with the complement).
    pub fn disable_action(&mut self, action: Actions)
        ensures
            final(self).actions.bits == (old(self).actions.bits & !action.bits),
            final(self).settings == old(self).settings,
            final(self).yaw == old(self).yaw,
            final(self).pitch == old(self).pitch,
            final(self).position == old(self).position,
            final(self).velocity == old(self).velocity,
    {
        self.actions = self.actions.without(action);
    }
}

/// Law: once pitch rests at the upper clamp bound, a further pointer
/// movement with a non-negative vertical delta and sensitivity keeps it
/// exactly there.
pub proof fn lemma_pitch_saturates_high(pitch: int, rel_dy: int, sens: int)
    requires
        pitch == HALF_PI_BITS as int,
        0 <= rel_dy,
        0 <= sens,
    ensures
        clamp_pitch_bits(add_bits(pitch, look_delta_bits(rel_dy, sens))) == HALF_PI_BITS as int,
{
    lemma_look_delta_nonneg(rel_dy, sens);
}

/// Law: with no actions active, a frame step leaves the position
/// unchanged, for any elapsed time and any supplied yaw sine and cosine.
pub proof fn lemma_idle_step_keeps_position(cam: FirstPerson, dt: int, yaw_sin: int, yaw_cos: int)
    requires
        cam.actions.bits == 0,
    ensures
        cam.spec_step_position(dt, yaw_sin, yaw_cos) == (
            cam.position.x.bits as int,
            cam.position.y.bits as int,
            cam.position.z.bits as int,
        ),
{
    let b: u8 = cam.actions.bits;
    assert(b & 0x01 == 0 && b & 0x02 == 0 && b & 0x04 == 0 && b & 0x08 == 0 && b & 0x10 == 0
        && b & 0x20 == 0) by (bit_vector)
        requires
            b == 0,
    ;
    let s: int = FX_SCALE as int;
    let gx: int = direction_x(cam.actions);
    let gy: int = direction_y(cam.actions);
    let gz: int = direction_z(cam.actions);
    assert(gx == 0 && gy == 0 && gz == 0);
    assert(s * gx == 0 && s * gy == 0 && s * gz == 0) by (nonlinear_arith)
        requires
            gx == 0,
            gy == 0,
            gz == 0,
    ;
    let vh: int = mul_bits(dt, cam.velocity.bits as int);
    let dh: int = mul_bits(vh, cam.settings.speed_horizontal.bits as int);
    lemma_mul_bits_zero(yaw_sin);
    lemma_mul_bits_zero(yaw_cos);
    lemma_mul_bits_zero(dt);
    lemma_mul_bits_zero(dh);
    lemma_mul_bits_zero(cam.settings.speed_vertical.bits as int);
    let w = cam.spec_displacement(dt, yaw_sin, yaw_cos);
    assert(w.0 == 0);
    assert(w.1 == 0);
    assert(w.2 == 0);
}

/// Law: diagonal movement is not normalized. With forward and strafe-left
/// both active and the yaw sine and cosine at (0, 1), the horizontal
/// displacement is `(-dh, dh)`, whose squared magnitude is twice `dh`
/// squared rather than `dh` squared.
pub proof fn lemma_diagonal_not_normalized(cam: FirstPerson, dt: int)
    requires
        cam.actions.has(Action::MoveForward),
        cam.actions.has(Action::StrafeLeft),
        !cam.actions.has(Action::MoveBackward),
        !cam.actions.has(Action::StrafeRight),
        0 <= dt,
        0 <= cam.velocity.bits,
        0 <= cam.settings.speed_horizontal.bits,
    ensures
        ({
            let dh = mul_bits(
                mul_bits(dt, cam.velocity.bits as int),
                cam.settings.speed_horizontal.bits as int,
            );
            let w = cam.spec_displacement(dt, 0, FX_SCALE as int);
            w.0 == -dh && w.2 == dh && w.0 * w.0 + w.2 * w.2 == 2 * (dh * dh)
        }),
{
    let s: int = FX_SCALE as int;
    let vh: int = mul_bits(dt, cam.velocity.bits as int);
    let dh: int = mul_bits(vh, cam.settings.speed_horizontal.bits as int);
    lemma_mul_bits_nonneg(dt, cam.velocity.bits as int);
    lemma_mul_bits_nonneg(vh, cam.settings.speed_horizontal.bits as int);
    let gx: int = direction_x(cam.actions);
    let gz: int = direction_z(cam.actions);
    assert(gx == 1 && gz == 1);
    assert(s * gx == s && s * gz == s) by (nonlinear_arith)
        requires
            gx == 1,
            gz == 1,
    ;
    lemma_mul_bits_zero(s);
    assert(0 < s * s) by (nonlinear_arith)
        requires
            0 < s,
    ;
    lemma_div_by_multiple(s, s);
    assert(mul_bits(s, s) == s);
    assert(sub_bits(mul_bits(0, s), mul_bits(s, s)) == -s);
    assert(add_bits(mul_bits(0, s), mul_bits(s, s)) == s);
    if dh == 0 {
        lemma_mul_bits_zero(-s);
        lemma_mul_bits_zero(s);
        assert(mul_bits(-s, dh) == -dh);
        assert(mul_bits(s, dh) == dh);
    } else {
        assert(s * dh == dh * s && (-s) * dh == -(dh * s) && 0 < dh * s) by (nonlinear_arith)
            requires
                0 < s,
                0 < dh,
        ;
        lemma_div_by_multiple(dh, s);
        assert(mul_bits(s, dh) == dh);
        assert(mul_bits(-s, dh) == -dh);
    }
    assert((-dh) * (-dh) + dh * dh == 2 * (dh * dh)) by (nonlinear_arith);
}

} // verus!
