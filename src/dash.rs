//! The dash gesture: a double press of one horizontal direction on flat
//! ground within the debounce window.

use vstd::prelude::*;

use crate::contact::Normal;
use crate::fixed::Velocity;
use crate::movement::{Direction, PlayerControl, blended, blend_toward};
use crate::timer::Timer;
use crate::tuning::TuningParameters;

verus! {

/// Length of the debounce window, in microseconds (200 ms).
pub const DASH_WINDOW_US: u64 = 200_000;

/// The pending half of a dash gesture: the direction of the first press and
/// the debounce timer armed by it.
#[derive(Clone, Copy, Debug, PartialEq, Eq, Structural)]
pub struct DashInput {
    pub timer: Timer,
    pub direction: Direction,
}

impl DashInput {
    /// A fresh buffer: neutral direction, debounce timer running from zero.
    pub fn new() -> (r: DashInput)
        ensures
            r == (DashInput {
                timer: Timer { duration_us: DASH_WINDOW_US, elapsed_us: 0, paused: false, finished: false },
                direction: Direction::Neutral,
            }),
    {
        DashInput { timer: Timer::new(DASH_WINDOW_US), direction: Direction::Neutral }
    }
}

/// The body stands on exactly flat ground and a direction was pressed.
pub open spec fn is_gesture_press(standing: Option<Normal>, pressed: Direction) -> bool {
    standing == Some(Normal::spec_up()) && pressed != Direction::Neutral
}

/// The press starts a new gesture: the debounce window is not open.
pub open spec fn rearms(d: DashInput, standing: Option<Normal>, pressed: Direction) -> bool {
    is_gesture_press(standing, pressed) && d.timer.is_finished()
}

/// The press completes a gesture: the window is open and the direction
/// matches the first press.
pub open spec fn fires(d: DashInput, standing: Option<Normal>, pressed: Direction) -> bool {
    is_gesture_press(standing, pressed) && !d.timer.is_finished() && pressed == d.direction
}

/// The buffer after one tick of `dt_us`: re-armed by a first press, then
/// advanced.
pub open spec fn next_dash(d: DashInput, standing: Option<Normal>, pressed: Direction, dt_us: u64) -> DashInput {
    if rearms(d, standing, pressed) {
        DashInput { timer: Timer { elapsed_us: 0, finished: false, ..d.timer }.ticked(dt_us), direction: pressed }
    } else {
        DashInput { timer: d.timer.ticked(dt_us), ..d }
    }
}

/// The debounce window is over on this tick: it had elapsed before the tick,
/// or elapses with this tick's advance.
pub open spec fn ends(d: DashInput, standing: Option<Normal>, pressed: Direction, dt_us: u64) -> bool {
    d.timer.is_finished() || next_dash(d, standing, pressed, dt_us).timer.is_finished()
}

/// One tick of the dash logic. `pressed` is the direction that went down this
/// tick (`Neutral` if none); `gravity_scale` is the body's gravity scale in
/// thousandths. A first press on flat ground arms the debounce window and
/// restores gravity; a matching second press inside the window blends the
/// horizontal speed toward the dash speed, marks the body dashing and zeroes
/// gravity. On the tick the window elapses, a dash ends and gravity is
/// restored.
pub fn dash_step(
    dash: &mut DashInput,
    control: &mut PlayerControl,
    velocity: &mut Velocity,
    gravity_scale: &mut u32,
    pressed: Direction,
    standing: Option<Normal>,
    params: &TuningParameters,
    dt_us: u32,
)
    ensures
        *final(dash) == next_dash(*old(dash), standing, pressed, dt_us as u64),
        *final(velocity) == (if fires(*old(dash), standing, pressed) {
            Velocity {
                x: blended(old(velocity).x as int, pressed.sign() * params.dash_speed, dt_us as int),
                y: old(velocity).y,
            }
        } else {
            *old(velocity)
        }),
        *final(control) == (PlayerControl {
            dashing: if ends(*old(dash), standing, pressed, dt_us as u64) {
                false
            } else if fires(*old(dash), standing, pressed) {
                true
            } else {
                old(control).dashing
            },
            ..*old(control)
        }),
        *final(gravity_scale) == (if ends(*old(dash), standing, pressed, dt_us as u64) && (fires(
            *old(dash),
            standing,
            pressed,
        ) || old(control).dashing) {
            params.gravity_scale
        } else if fires(*old(dash), standing, pressed) {
            0
        } else if is_gesture_press(standing, pressed) {
            params.gravity_scale
        } else {
            *old(gravity_scale)
        }),
        ends(*old(dash), standing, pressed, dt_us as u64) ==> !final(control).dashing,
        ends(*old(dash), standing, pressed, dt_us as u64) && old(control).dashing
            ==> *final(gravity_scale) == params.gravity_scale,
{
    let expired = dash.timer.finished();
    let flat = match standing {
        Some(n) => n == Normal::up(),
        None => false,
    };
    if flat && pressed != Direction::Neutral {
        if expired {
            dash.direction = pressed;
            dash.timer.reset();
            *gravity_scale = params.gravity_scale;
        } else if pressed == dash.direction {
            let target: i64 = pressed.to_sign() * (params.dash_speed as i64);
            velocity.x = blend_toward(velocity.x, target, dt_us);
            control.dashing = true;
            *gravity_scale = 0;
        } else {
            *gravity_scale = params.gravity_scale;
        }
    }
    dash.timer.tick(dt_us as u64);
    if (expired || dash.timer.finished()) && control.dashing {
        control.dashing = false;
        *gravity_scale = params.gravity_scale;
    }
}

} // verus!
