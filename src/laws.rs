//! Properties of the movement logic that hold for every input, stated over
//! the spec functions that the executable contracts use.

use vstd::prelude::*;

use crate::contact::Normal;
use crate::dash::{DashInput, fires, is_gesture_press, next_dash};
use crate::fixed::Velocity;
use crate::movement::{
    Direction, JumpInput, JumpStatus, PlayerControl, WALL_JUMP_DIRECTION, blend_factor, blended,
    classify, effective_normal, is_jumpable, is_landing, is_wall, next_control, next_velocity,
};
use crate::tuning::{TuningParameters, MIN_TIME_TO_APEX_MS, gravity_for};

verus! {

/// Standing on a normal whose vertical component exceeds 0.999 with jump not
/// held, the tick is `CanJump` and the body stops rising.
pub proof fn lemma_steep_standing_can_jump(
    control: PlayerControl,
    standing: Normal,
    input: JumpInput,
    now: Option<u64>,
    coyote_time_ms: u64,
    vy: i64,
)
    requires
        standing.y > 999_000,
        !input.jump_held,
    ensures
        classify(
            effective_normal(Some(standing), control, input, now, coyote_time_ms),
            input,
            control.rising,
            vy,
        ) == JumpStatus::CanJump,
        !next_control(control, Some(standing), JumpStatus::CanJump).rising,
{
}

/// Airborne with jump held and not already jumping, within the coyote window
/// after standing on a jumpable normal, the tick still initiates a jump from
/// the normal last stood on.
pub proof fn lemma_coyote_time_jump(
    control: PlayerControl,
    input: JumpInput,
    stood_at: u64,
    now: u64,
    coyote_time_ms: u64,
    vy: i64,
)
    requires
        input.jump_held,
        !control.jumping,
        control.last_stood_time == Some(stood_at),
        is_jumpable(control.last_stood_normal),
        stood_at <= now,
        now - stood_at <= coyote_time_ms * 1000,
    ensures
        effective_normal(None, control, input, Some(now), coyote_time_ms) == Some(
            control.last_stood_normal,
        ),
        classify(
            effective_normal(None, control, input, Some(now), coyote_time_ms),
            input,
            control.rising,
            vy,
        ) == JumpStatus::InitiateJump,
{
}

/// Airborne past the coyote window, no normal is substituted and no jump is
/// initiated.
pub proof fn lemma_coyote_time_expired(
    control: PlayerControl,
    input: JumpInput,
    stood_at: u64,
    now: u64,
    coyote_time_ms: u64,
    vy: i64,
)
    requires
        control.last_stood_time == Some(stood_at),
        stood_at <= now,
        now - stood_at > coyote_time_ms * 1000,
    ensures
        effective_normal(None, control, input, Some(now), coyote_time_ms) == None::<Normal>,
        classify(
            effective_normal(None, control, input, Some(now), coyote_time_ms),
            input,
            control.rising,
            vy,
        ) != JumpStatus::InitiateJump,
{
}

/// On a flat or wall normal the jump flags are cleared on the same tick,
/// whatever they were; only a jump started on that tick sets its own flag
/// again.
pub proof fn lemma_landing_resets(control: PlayerControl, normal: Normal, status: JumpStatus)
    requires
        is_landing(normal),
    ensures
        next_control(control, Some(normal), status).jumping == (status
            == JumpStatus::InitiateJump),
        next_control(control, Some(normal), status).wall_jumping == (status
            == JumpStatus::InitiateWallJump),
{
}

/// A press with no open debounce window never dashes. After such a first
/// press on flat ground, the next tick's press dashes exactly when it is the
/// same direction, on flat ground, and the first tick was shorter than the
/// window.
pub proof fn lemma_dash_needs_matching_second_press(
    d: DashInput,
    first_standing: Option<Normal>,
    first: Direction,
    dt_us: u64,
    second_standing: Option<Normal>,
    second: Direction,
)
    requires
        d.timer.is_finished(),
        !d.timer.paused,
        is_gesture_press(first_standing, first),
    ensures
        !fires(d, first_standing, first),
        fires(next_dash(d, first_standing, first, dt_us), second_standing, second) <==> (
        is_gesture_press(second_standing, second) && second == first && dt_us
            < d.timer.duration_us),
{
}

/// Standing on a wall with a direction held and jump just pressed, the tick
/// is a wall jump: the kick sets the horizontal speed to the run speed in the
/// fixed wall-jump direction and the vertical speed to the jump power.
pub proof fn lemma_wall_jump(
    control: PlayerControl,
    normal: Normal,
    input: JumpInput,
    now: Option<u64>,
    velocity: Velocity,
    params: TuningParameters,
    dt_us: u32,
)
    requires
        is_wall(normal),
        input.horizontal_held,
        input.jump_just_pressed,
    ensures
        classify(
            effective_normal(Some(normal), control, input, now, params.coyote_time_ms),
            input,
            control.rising,
            velocity.y,
        ) == JumpStatus::InitiateWallJump,
        next_velocity(velocity, JumpStatus::InitiateWallJump, params, dt_us) == (Velocity {
            x: (WALL_JUMP_DIRECTION * params.run_speed) as i64,
            y: params.jump_power_coefficient,
        }),
        next_control(control, Some(normal), JumpStatus::InitiateWallJump).wall_jumping,
{
}

/// Blending never overshoots: whatever the tick length, the new horizontal
/// speed lies between the current speed and the target.
pub proof fn lemma_blend_stays_between(current: i64, target: i64, dt_us: u32)
    ensures
        current <= target ==> current <= blended(current as int, target as int, dt_us as int) <= target,
        target <= current ==> target <= blended(current as int, target as int, dt_us as int) <= current,
{
    let f = blend_factor(dt_us as int);
    let d = target - current;
    assert(0 <= f <= 1_000_000);
    if d >= 0 {
        assert(0 <= d * f <= d * 1_000_000) by (nonlinear_arith)
            requires d >= 0, 0 <= f <= 1_000_000;
        assert(0 <= (d * f) / 1_000_000 <= d) by (nonlinear_arith)
            requires 0 <= d * f <= d * 1_000_000;
    } else {
        let m = -d;
        assert(0 <= m * f <= m * 1_000_000) by (nonlinear_arith)
            requires m >= 0, 0 <= f <= 1_000_000;
        assert(0 <= (m * f) / 1_000_000 <= m) by (nonlinear_arith)
            requires 0 <= m * f <= m * 1_000_000;
        assert(d * f == -(m * f)) by (nonlinear_arith)
            requires m == -d;
    }
}

/// A zero time to apex is raised to the minimum before gravity is derived, so
/// the derived gravity and jump power are those of the minimum time to apex.
pub proof fn lemma_zero_time_to_apex_is_clamped(p: TuningParameters)
    requires
        p.wf(),
        p.time_to_apex_ms == 0,
    ensures
        p.gravity_y == gravity_for(p.effective_jump_height(), MIN_TIME_TO_APEX_MS as int),
        p.gravity_y == -(2 * p.effective_jump_height() * 1_000_000),
{
    let n = 2 * p.effective_jump_height() * 1_000_000;
    assert(n / (1int * 1int) == n) by (nonlinear_arith);
}

} // verus!
