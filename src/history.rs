//! Recording of position and velocity samples while movement input is active,
//! for later plotting.

use vstd::prelude::*;

use crate::fixed::Sample;
use crate::timer::Timer;

verus! {

/// Default length of a recording, in microseconds (2 s).
pub const DEFAULT_TRACK_DURATION_US: u64 = 2_000_000;

/// Marks a body whose movement is recorded.
#[derive(Clone, Copy, Debug, PartialEq, Eq, Structural)]
pub struct TrackMovement;

/// The samples of the current recording, oldest first.
#[derive(Debug)]
pub struct History {
    pub velocity: Vec<Sample>,
    pub distance: Vec<Sample>,
}

/// The one-shot timer bounding a recording.
#[derive(Clone, Copy, Debug, PartialEq, Eq, Structural)]
pub struct HistoryTimer(pub Timer);

/// How long a recording lasts.
#[derive(Clone, Copy, Debug, PartialEq, Eq, Structural)]
pub struct MoveVisConfig {
    pub track_duration_us: u64,
}

impl Default for MoveVisConfig {
    fn default() -> (r: MoveVisConfig)
        ensures
            r.track_duration_us == DEFAULT_TRACK_DURATION_US,
    {
        MoveVisConfig { track_duration_us: DEFAULT_TRACK_DURATION_US }
    }
}

impl MoveVisConfig {
    /// The recording length in whole seconds, rounded down.
    pub fn track_duration_secs(&self) -> (r: u64)
        ensures
            r == self.track_duration_us / 1_000_000,
    {
        self.track_duration_us / 1_000_000
    }

    /// Set the recording length to `secs` whole seconds.
    pub fn set_track_duration_secs(&mut self, secs: u32)
        ensures
            final(self).track_duration_us == secs * 1_000_000,
    {
        self.track_duration_us = (secs as u64) * 1_000_000;
    }
}

impl History {
    /// No samples.
    pub fn new() -> (r: History)
        ensures
            r.velocity@ == Seq::<Sample>::empty(),
            r.distance@ == Seq::<Sample>::empty(),
    {
        History { velocity: Vec::new(), distance: Vec::new() }
    }
}

impl HistoryTimer {
    /// A paused timer of the configured length, for a body that starts being
    /// tracked.
    pub fn for_config(config: &MoveVisConfig) -> (r: HistoryTimer)
        ensures
            r.0 == (Timer {
                duration_us: config.track_duration_us,
                elapsed_us: 0,
                paused: true,
                finished: false,
            }),
    {
        let mut t = Timer::new(config.track_duration_us);
        t.pause();
        HistoryTimer(t)
    }
}

/// The timer once movement input (if any) has resumed it and, when it had
/// finished, restarted it.
pub open spec fn armed_timer(t: Timer, movement_input: bool) -> Timer {
    if !movement_input {
        t
    } else if t.is_finished() {
        Timer { paused: false, elapsed_us: 0, finished: false, ..t }
    } else {
        Timer { paused: false, ..t }
    }
}

/// Movement input starts a new recording: the previous one had finished.
pub open spec fn starts_over(t: Timer, movement_input: bool) -> bool {
    movement_input && t.is_finished()
}

/// A sample is taken this tick.
pub open spec fn samples(t: Timer, movement_input: bool) -> bool {
    let a = armed_timer(t, movement_input);
    !a.is_finished() && !a.paused
}

/// The samples after one tick.
pub open spec fn recorded(old_samples: Seq<Sample>, restart: bool, take: bool, s: Sample) -> Seq<Sample> {
    let kept = if restart { Seq::<Sample>::empty() } else { old_samples };
    if take { kept.push(s) } else { kept }
}

/// One tick of recording. Movement input resumes a paused recording, and
/// restarts a finished one from empty; while the timer runs, the position
/// and velocity are appended; then the timer advances by `dt_us`.
pub fn record_history(
    history: &mut History,
    timer: &mut HistoryTimer,
    movement_input: bool,
    position: Sample,
    velocity: Sample,
    dt_us: u64,
)
    ensures
        final(history).distance@ == recorded(
            old(history).distance@,
            starts_over(old(timer).0, movement_input),
            samples(old(timer).0, movement_input),
            position,
        ),
        final(history).velocity@ == recorded(
            old(history).velocity@,
            starts_over(old(timer).0, movement_input),
            samples(old(timer).0, movement_input),
            velocity,
        ),
        final(timer).0 == armed_timer(old(timer).0, movement_input).ticked(dt_us),
{
    if movement_input {
        if timer.0.is_paused() {
            timer.0.unpause();
        }
        if timer.0.finished() {
            history.distance.clear();
            history.velocity.clear();
            timer.0.reset();
        }
    }
    if !timer.0.finished() && !timer.0.is_paused() {
        history.distance.push(position);
        history.velocity.push(velocity);
    }
    timer.0.tick(dt_us);
}

} // verus!
