//! The per-tick jump / wall / airborne state machine and horizontal run
//! blending.

use vstd::prelude::*;

use crate::contact::{Normal, NORMAL_UNIT};
use crate::fixed::{Velocity, saturate, trunc_div, saturate_i128, trunc_div_i128};
use crate::tuning::TuningParameters;

verus! {

/// A normal whose vertical component is above this (0.001) can be jumped from.
pub const JUMPABLE_ABOVE: i64 = 1_000;

/// The horizontal sign of the wall-jump kick.
pub const WALL_JUMP_DIRECTION: i64 = 1;

/// Rate of run blending per second: a tick's blend factor is
/// `RUN_BLEND_RATE * dt`, capped at one.
pub const RUN_BLEND_RATE: u64 = 10;

/// A horizontal input direction.
#[derive(Clone, Copy, Debug, PartialEq, Eq, Structural)]
pub enum Direction {
    Left,
    Neutral,
    Right,
}

impl Direction {
    pub open spec fn sign(self) -> int {
        match self {
            Direction::Left => -1,
            Direction::Neutral => 0,
            Direction::Right => 1,
        }
    }

    /// -1, 0 or 1.
    pub fn to_sign(&self) -> (r: i64)
        ensures
            r == self.sign(),
    {
        match self {
            Direction::Left => -1,
            Direction::Neutral => 0,
            Direction::Right => 1,
        }
    }
}

/// The buttons the jump logic reads this tick.
#[derive(Clone, Copy, Debug, PartialEq, Eq, Structural)]
pub struct JumpInput {
    /// Jump is held down.
    pub jump_held: bool,
    /// Jump went down this tick.
    pub jump_just_pressed: bool,
    /// Left or right is held down.
    pub horizontal_held: bool,
}

/// The regime a tick falls into.
#[derive(Clone, Copy, Debug, PartialEq, Eq, Structural)]
pub enum JumpStatus {
    CanJump,
    InitiateJump,
    InitiateWallJump,
    GoingUp,
    StoppingUp,
    GoingDown,
    WallSliding,
}

/// Per-body movement flags. Times are in microseconds.
#[derive(Clone, Copy, Debug, PartialEq, Eq, Structural)]
pub struct PlayerControl {
    pub dashing: bool,
    pub rising: bool,
    pub jumping: bool,
    pub wall_sliding: bool,
    pub wall_jumping: bool,
    pub last_stood_normal: Normal,
    pub last_stood_time: Option<u64>,
}

impl PlayerControl {
    /// All flags clear, last stood on flat ground, never stood yet.
    pub fn new() -> (r: PlayerControl)
        ensures
            r == (PlayerControl {
                dashing: false,
                rising: false,
                jumping: false,
                wall_sliding: false,
                wall_jumping: false,
                last_stood_normal: Normal::spec_up(),
                last_stood_time: None,
            }),
    {
        PlayerControl {
            dashing: false,
            rising: false,
            jumping: false,
            wall_sliding: false,
            wall_jumping: false,
            last_stood_normal: Normal::up(),
            last_stood_time: None,
        }
    }
}

/// A wall: horizontal normal of full length.
pub open spec fn is_wall(n: Normal) -> bool {
    (n.x == NORMAL_UNIT || n.x == -NORMAL_UNIT) && n.y == 0
}

/// Flat ground or a wall: touching it gives the jumps back.
pub open spec fn is_landing(n: Normal) -> bool {
    n.x == NORMAL_UNIT || n.x == -NORMAL_UNIT || n.y == NORMAL_UNIT
}

/// Upward-facing enough to jump from.
pub open spec fn is_jumpable(n: Normal) -> bool {
    n.y > JUMPABLE_ABOVE
}

/// `now` lies within the coyote window after the last time the body stood.
/// A clock that went backwards counts as no time passing.
pub open spec fn within_coyote(last: Option<u64>, now: Option<u64>, coyote_time_ms: u64) -> bool {
    match (last, now) {
        (Some(l), Some(n)) => (if n >= l { n - l } else { 0 }) <= coyote_time_ms * 1000,
        _ => false,
    }
}

/// The normal the tick works with: the standing normal, or, while airborne
/// with jump held, not already jumping and within the coyote window, the
/// normal last stood on.
pub open spec fn effective_normal(
    standing: Option<Normal>,
    control: PlayerControl,
    input: JumpInput,
    now: Option<u64>,
    coyote_time_ms: u64,
) -> Option<Normal> {
    if standing is None && input.jump_held && !control.jumping && within_coyote(
        control.last_stood_time,
        now,
        coyote_time_ms,
    ) {
        Some(control.last_stood_normal)
    } else {
        standing
    }
}

/// The regime of a tick, from the effective normal, the input, whether the
/// body was rising and its vertical velocity.
pub open spec fn classify(normal: Option<Normal>, input: JumpInput, rising: bool, vy: i64) -> JumpStatus {
    if normal is Some && is_wall(normal->0) && input.horizontal_held {
        if input.jump_just_pressed {
            JumpStatus::InitiateWallJump
        } else {
            JumpStatus::WallSliding
        }
    } else if normal is Some && is_jumpable(normal->0) {
        if input.jump_held {
            JumpStatus::InitiateJump
        } else {
            JumpStatus::CanJump
        }
    } else if vy >= 0 {
        if input.jump_held && rising {
            JumpStatus::GoingUp
        } else {
            JumpStatus::StoppingUp
        }
    } else {
        JumpStatus::GoingDown
    }
}

/// The flags after a tick in regime `status` with effective normal `normal`.
pub open spec fn next_control(c: PlayerControl, normal: Option<Normal>, status: JumpStatus) -> PlayerControl {
    let landed = normal is Some && is_landing(normal->0);
    PlayerControl {
        dashing: c.dashing,
        rising: match status {
            JumpStatus::InitiateJump | JumpStatus::GoingUp => true,
            JumpStatus::InitiateWallJump => c.rising,
            _ => false,
        },
        jumping: if status == JumpStatus::InitiateJump {
            true
        } else if landed {
            false
        } else {
            c.jumping
        },
        wall_sliding: status == JumpStatus::WallSliding,
        wall_jumping: if status == JumpStatus::InitiateWallJump {
            true
        } else if landed {
            false
        } else {
            c.wall_jumping
        },
        last_stood_normal: match normal {
            Some(n) => n,
            None => c.last_stood_normal,
        },
        last_stood_time: c.last_stood_time,
    }
}

/// Change of vertical speed from gravity `g` scaled by `factor` (thousandths)
/// over `dt_us` microseconds, rounded toward zero.
pub open spec fn gravity_delta(g: int, factor: int, dt_us: int) -> int {
    trunc_div(g * factor * dt_us, 1_000_000_000)
}

/// The velocity after a tick in regime `status`.
pub open spec fn next_velocity(v: Velocity, status: JumpStatus, p: TuningParameters, dt_us: u32) -> Velocity {
    match status {
        JumpStatus::InitiateJump => Velocity { x: v.x, y: saturate(v.y + p.jump_power_coefficient) },
        JumpStatus::StoppingUp => Velocity {
            x: v.x,
            y: saturate(v.y + gravity_delta(p.gravity_y as int, p.jump_break_factor as int, dt_us as int)),
        },
        JumpStatus::GoingDown => Velocity {
            x: v.x,
            y: saturate(v.y + gravity_delta(p.gravity_y as int, p.fall_factor as int, dt_us as int)),
        },
        JumpStatus::WallSliding => Velocity { x: v.x, y: 0 },
        JumpStatus::InitiateWallJump => Velocity {
            x: (WALL_JUMP_DIRECTION * p.run_speed) as i64,
            y: p.jump_power_coefficient,
        },
        _ => v,
    }
}

/// Exec form of `gravity_delta`.
fn compute_gravity_delta(g: i64, factor: u32, dt_us: u32) -> (d: i128)
    ensures
        d as int == gravity_delta(g as int, factor as int, dt_us as int),
        -0x8000_0000_0000_0000int * 0xffff_ffffint * 0xffff_ffffint <= d
            <= 0x8000_0000_0000_0000int * 0xffff_ffffint * 0xffff_ffffint,
{
    let ghost b1: int = 0x8000_0000_0000_0000int * 0xffff_ffffint;
    let ghost b2: int = b1 * 0xffff_ffffint;
    assert(-b1 <= g * factor <= b1) by (nonlinear_arith)
        requires -0x8000_0000_0000_0000int <= g <= 0x8000_0000_0000_0000int,
            0 <= factor <= 0xffff_ffffint, b1 == 0x8000_0000_0000_0000int * 0xffff_ffffint;
    let gf: i128 = (g as i128) * (factor as i128);
    assert(-b2 <= gf * dt_us <= b2) by (nonlinear_arith)
        requires -b1 <= gf <= b1, 0 <= dt_us <= 0xffff_ffffint, b2 == b1 * 0xffff_ffffint;
    let p: i128 = gf * (dt_us as i128);
    trunc_div_i128(p, 1_000_000_000)
}

/// Record that the body stands on something this tick at time `now`.
pub fn record_standing(control: &mut PlayerControl, standing: Option<Normal>, now: Option<u64>)
    ensures
        *final(control) == (if standing is Some {
            PlayerControl { last_stood_time: now, ..*old(control) }
        } else {
            *old(control)
        }),
{
    if standing.is_some() {
        control.last_stood_time = now;
    }
}

/// One tick of the jump logic: pick the effective normal (with coyote time),
/// reset the jump flags on landing, classify the tick and apply its effect on
/// the flags and the velocity.
pub fn jump_step(
    control: &mut PlayerControl,
    velocity: &mut Velocity,
    standing: Option<Normal>,
    input: JumpInput,
    now: Option<u64>,
    params: &TuningParameters,
    dt_us: u32,
) -> (status: JumpStatus)
    ensures
        status == classify(
            effective_normal(standing, *old(control), input, now, params.coyote_time_ms),
            input,
            old(control).rising,
            old(velocity).y,
        ),
        *final(control) == next_control(
            *old(control),
            effective_normal(standing, *old(control), input, now, params.coyote_time_ms),
            status,
        ),
        *final(velocity) == next_velocity(*old(velocity), status, *params, dt_us),
{
    let mut normal = standing;
    if standing.is_none() && input.jump_held && !control.jumping {
        match (control.last_stood_time, now) {
            (Some(l), Some(n)) => {
                let passed: u64 = if n >= l { n - l } else { 0 };
                if (passed as u128) <= (params.coyote_time_ms as u128) * 1000 {
                    normal = Some(control.last_stood_normal);
                }
            },
            _ => {},
        }
    }
    control.wall_sliding = false;
    if let Some(n) = normal {
        if n.x == NORMAL_UNIT || n.x == -NORMAL_UNIT || n.y == NORMAL_UNIT {
            control.jumping = false;
            control.wall_jumping = false;
        }
        control.last_stood_normal = n;
    }
    let mut status = JumpStatus::StoppingUp;
    let mut decided = false;
    if let Some(n) = normal {
        if (n.x == NORMAL_UNIT || n.x == -NORMAL_UNIT) && n.y == 0 && input.horizontal_held {
            status = if input.jump_just_pressed {
                JumpStatus::InitiateWallJump
            } else {
                JumpStatus::WallSliding
            };
            decided = true;
        } else if n.y > JUMPABLE_ABOVE {
            status = if input.jump_held {
                JumpStatus::InitiateJump
            } else {
                JumpStatus::CanJump
            };
            decided = true;
        }
    }
    if !decided {
        status = if velocity.y >= 0 {
            if input.jump_held && control.rising {
                JumpStatus::GoingUp
            } else {
                JumpStatus::StoppingUp
            }
        } else {
            JumpStatus::GoingDown
        };
    }
    match status {
        JumpStatus::CanJump => {
            control.rising = false;
        },
        JumpStatus::InitiateJump => {
            velocity.y = saturate_i128(velocity.y as i128 + params.jump_power_coefficient as i128);
            control.rising = true;
            control.jumping = true;
        },
        JumpStatus::GoingUp => {
            control.rising = true;
        },
        JumpStatus::StoppingUp => {
            let d = compute_gravity_delta(params.gravity_y, params.jump_break_factor, dt_us);
            velocity.y = saturate_i128(velocity.y as i128 + d);
            control.rising = false;
        },
        JumpStatus::GoingDown => {
            let d = compute_gravity_delta(params.gravity_y, params.fall_factor, dt_us);
            velocity.y = saturate_i128(velocity.y as i128 + d);
            control.rising = false;
        },
        JumpStatus::WallSliding => {
            control.wall_sliding = true;
            control.rising = false;
            velocity.y = 0;
        },
        JumpStatus::InitiateWallJump => {
            control.wall_jumping = true;
            velocity.x = WALL_JUMP_DIRECTION * (params.run_speed as i64);
            velocity.y = params.jump_power_coefficient;
        },
    }
    status
}

/// The blend factor for a tick of `dt_us` microseconds, in millionths:
/// `RUN_BLEND_RATE * dt`, capped at one.
pub open spec fn blend_factor(dt_us: int) -> int {
    if RUN_BLEND_RATE * dt_us > 1_000_000 {
        1_000_000
    } else {
        RUN_BLEND_RATE * dt_us
    }
}

/// `current` moved toward `target` by the blend factor of a tick of `dt_us`.
pub open spec fn blended(current: int, target: int, dt_us: int) -> i64 {
    saturate(current + trunc_div((target - current) * blend_factor(dt_us), 1_000_000))
}

/// Move the horizontal speed `current` toward `target` by the blend factor of
/// a tick of `dt_us` microseconds.
pub fn blend_toward(current: i64, target: i64, dt_us: u32) -> (r: i64)
    ensures
        r == blended(current as int, target as int, dt_us as int),
{
    let raw: u64 = RUN_BLEND_RATE * (dt_us as u64);
    let f: i128 = if raw > 1_000_000 {
        1_000_000
    } else {
        raw as i128
    };
    let diff: i128 = target as i128 - current as i128;
    assert(-0x1_0000_0000_0000_0000int * 1_000_000 <= diff * f <= 0x1_0000_0000_0000_0000int * 1_000_000)
        by (nonlinear_arith)
        requires -0x1_0000_0000_0000_0000int <= diff <= 0x1_0000_0000_0000_0000int, 0 <= f <= 1_000_000;
    let prod: i128 = diff * f;
    let q = trunc_div_i128(prod, 1_000_000);
    saturate_i128(current as i128 + q)
}

/// One tick of horizontal running: unless wall jumping, blend the horizontal
/// speed toward `direction * run_speed`.
pub fn run_step(
    velocity: &mut Velocity,
    control: &PlayerControl,
    direction: Direction,
    params: &TuningParameters,
    dt_us: u32,
)
    ensures
        *final(velocity) == (if control.wall_jumping {
            *old(velocity)
        } else {
            Velocity {
                x: blended(old(velocity).x as int, direction.sign() * params.run_speed, dt_us as int),
                y: old(velocity).y,
            }
        }),
{
    if !control.wall_jumping {
        let target: i64 = direction.to_sign() * (params.run_speed as i64);
        velocity.x = blend_toward(velocity.x, target, dt_us);
    }
}

} // verus!
