//! The tuning-parameter store and the recompute of its derived values.

use vstd::prelude::*;

verus! {

/// Empirical unit-conversion factor applied to the initial jump speed.
pub const JUMP_POWER_SCALE: i64 = 50;

/// Smallest jump height (in thousandths) used when deriving gravity.
pub const MIN_JUMP_HEIGHT: u32 = 1;

/// Smallest time to apex (in milliseconds) used when deriving gravity.
pub const MIN_TIME_TO_APEX_MS: u32 = 1;

/// `r` is the integer square root of `n`, rounded down.
pub open spec fn is_floor_sqrt(n: int, r: int) -> bool {
    0 <= r && r * r <= n && n < (r + 1) * (r + 1)
}

/// The integer square root of `n`, rounded down.
pub open spec fn floor_sqrt(n: int) -> int {
    choose|r: int| is_floor_sqrt(n, r)
}

pub proof fn lemma_floor_sqrt_unique(n: int, r: int)
    requires
        is_floor_sqrt(n, r),
    ensures
        floor_sqrt(n) == r,
{
    let s = floor_sqrt(n);
    assert(is_floor_sqrt(n, s));
    if s < r {
        assert((s + 1) * (s + 1) <= r * r) by (nonlinear_arith)
            requires 0 <= s, s + 1 <= r;
    } else if r < s {
        assert((r + 1) * (r + 1) <= s * s) by (nonlinear_arith)
            requires 0 <= r, r + 1 <= s;
    }
}

/// The integer square root of `n`, rounded down.
pub fn isqrt(n: u128) -> (r: u128)
    ensures
        is_floor_sqrt(n as int, r as int),
        r as int == floor_sqrt(n as int),
{
    let mut lo: u128 = 0;
    let mut hi: u128 = 0x1_0000_0000_0000_0000;
    assert(n < hi * hi) by (nonlinear_arith)
        requires hi == 0x1_0000_0000_0000_0000u128, n <= u128::MAX;
    while lo + 1 < hi
        invariant
            lo < hi <= 0x1_0000_0000_0000_0000u128,
            lo * lo <= n,
            n < hi * hi,
        decreases hi - lo,
    {
        let mid: u128 = lo + (hi - lo) / 2;
        assert(mid * mid <= u128::MAX) by (nonlinear_arith)
            requires mid < 0x1_0000_0000_0000_0000u128;
        if mid * mid <= n {
            lo = mid;
        } else {
            hi = mid;
        }
    }
    proof {
        lemma_floor_sqrt_unique(n as int, lo as int);
    }
    lo
}

/// Gravity (thousandths of a unit per second squared) that makes a jump of
/// `h` thousandths peak after `t` milliseconds: `-2h/t²`, its magnitude
/// rounded up so that a positive height always gives some gravity.
pub open spec fn gravity_for(h: int, t: int) -> int {
    -((2 * h * 1_000_000 + t * t - 1) / (t * t))
}

/// Initial jump speed, before unit scaling, that reaches height `h` under
/// gravity `g`: `sqrt(2|g|h)`, rounded down.
pub open spec fn jump_power_for(g: int, h: int) -> int {
    floor_sqrt(2 * (if g < 0 { -g } else { g }) * h)
}

/// A value raised to at least `min`.
pub open spec fn at_least(v: int, min: int) -> int {
    if v < min { min } else { v }
}

/// Gravity for jump height `jump_height` (thousandths) and time to apex
/// `time_to_apex_ms`, both of which must be positive.
pub fn compute_gravity(jump_height: u32, time_to_apex_ms: u32) -> (g: i64)
    requires
        jump_height >= 1,
        time_to_apex_ms >= 1,
    ensures
        g as int == gravity_for(jump_height as int, time_to_apex_ms as int),
        -2 * (jump_height as int) * 1_000_000 <= g < 0,
{
    let a: u128 = 2 * (jump_height as u128) * 1_000_000;
    let t: u128 = time_to_apex_ms as u128;
    assert(1 <= t * t <= u64::MAX) by (nonlinear_arith)
        requires 1 <= t <= u32::MAX;
    let den: u128 = t * t;
    let q: u128 = (a + den - 1) / den;
    assert(1 <= q <= a) by (nonlinear_arith)
        requires den >= 1, a >= 1, q == (a + den - 1) / (den as int);
    -(q as i64)
}

/// Initial jump speed before unit scaling for gravity `gravity` and jump
/// height `jump_height`.
pub fn compute_jump_power_unscaled(gravity: i64, jump_height: u32) -> (p: i64)
    ensures
        p as int == jump_power_for(gravity as int, jump_height as int),
        0 <= p <= 0x1_0000_0000_0000i64,
        gravity != 0 && jump_height >= 1 ==> p >= 1,
{
    let mag: u128 = if gravity < 0 {
        (-(gravity as i128)) as u128
    } else {
        gravity as u128
    };
    let h: u128 = jump_height as u128;
    assert(2 * mag * h <= u128::MAX) by (nonlinear_arith)
        requires mag <= 0x8000_0000_0000_0000u128, h <= u32::MAX;
    let r: u128 = isqrt(2 * mag * h);
    if gravity != 0 && jump_height >= 1 {
        let ghost n: int = 2 * mag * h;
        assert(n >= 2) by (nonlinear_arith)
            requires mag >= 1, h >= 1, n == 2 * mag * h;
        assert(r >= 1) by (nonlinear_arith)
            requires n >= 2, n < (r + 1) * (r + 1), r >= 0;
    }
    assert(r <= 0x1_0000_0000_0000u128) by (nonlinear_arith)
        requires r * r <= 2 * mag * h, mag <= 0x8000_0000_0000_0000u128, h <= u32::MAX;
    r as i64
}

/// Which inputs had to be raised before the derived values were computed.
#[derive(Clone, Copy, Debug, PartialEq, Eq, Structural)]
pub struct ConfigWarning {
    pub jump_height_clamped: bool,
    pub time_to_apex_clamped: bool,
}

impl ConfigWarning {
    /// Some input was out of range.
    pub fn any(&self) -> (r: bool)
        ensures
            r == (self.jump_height_clamped || self.time_to_apex_clamped),
    {
        self.jump_height_clamped || self.time_to_apex_clamped
    }
}

/// The coefficients that govern movement feel. Speeds and heights are in
/// thousandths of a unit, factors in thousandths, the coyote time in
/// milliseconds. `gravity_y` and `jump_power_coefficient` are derived from
/// `jump_height` and `time_to_apex_ms` by `recompute`.
#[derive(Clone, Copy, Debug, PartialEq, Eq, Structural)]
pub struct TuningParameters {
    pub jump_height: u32,
    pub time_to_apex_ms: u32,
    pub run_speed: u32,
    pub dash_speed: u32,
    pub coyote_time_ms: u64,
    pub slide_factor: i64,
    pub fall_factor: u32,
    pub jump_break_factor: u32,
    pub gravity_scale: u32,
    pub gravity_y: i64,
    pub jump_power_coefficient: i64,
}

impl TuningParameters {
    /// The jump height used for derivation, raised to the minimum.
    pub open spec fn effective_jump_height(self) -> int {
        at_least(self.jump_height as int, MIN_JUMP_HEIGHT as int)
    }

    /// The time to apex used for derivation, raised to the minimum.
    pub open spec fn effective_time_to_apex(self) -> int {
        at_least(self.time_to_apex_ms as int, MIN_TIME_TO_APEX_MS as int)
    }

    /// The derived gravity.
    pub open spec fn derived_gravity(self) -> int {
        gravity_for(self.effective_jump_height(), self.effective_time_to_apex())
    }

    /// The derived initial jump speed, before unit scaling.
    pub open spec fn derived_jump_power_unscaled(self) -> int {
        jump_power_for(self.derived_gravity(), self.effective_jump_height())
    }

    /// The derived fields agree with the primary ones.
    pub open spec fn wf(self) -> bool {
        &&& self.gravity_y == self.derived_gravity()
        &&& self.jump_power_coefficient == JUMP_POWER_SCALE * self.derived_jump_power_unscaled()
    }

    /// Recompute gravity and the jump power coefficient after an edit. A zero
    /// jump height or time to apex is raised to its minimum first, and the
    /// returned warning says so.
    pub fn recompute(&mut self) -> (w: ConfigWarning)
        ensures
            final(self).wf(),
            *final(self) == (TuningParameters {
                gravity_y: final(self).gravity_y,
                jump_power_coefficient: final(self).jump_power_coefficient,
                ..*old(self)
            }),
            final(self).gravity_y < 0,
            final(self).jump_power_coefficient > 0,
            w.jump_height_clamped == (old(self).jump_height < MIN_JUMP_HEIGHT),
            w.time_to_apex_clamped == (old(self).time_to_apex_ms < MIN_TIME_TO_APEX_MS),
    {
        let h: u32 = if self.jump_height < MIN_JUMP_HEIGHT {
            MIN_JUMP_HEIGHT
        } else {
            self.jump_height
        };
        let t: u32 = if self.time_to_apex_ms < MIN_TIME_TO_APEX_MS {
            MIN_TIME_TO_APEX_MS
        } else {
            self.time_to_apex_ms
        };
        let g = compute_gravity(h, t);
        let p = compute_jump_power_unscaled(g, h);
        self.gravity_y = g;
        self.jump_power_coefficient = JUMP_POWER_SCALE * p;
        ConfigWarning {
            jump_height_clamped: self.jump_height < MIN_JUMP_HEIGHT,
            time_to_apex_clamped: self.time_to_apex_ms < MIN_TIME_TO_APEX_MS,
        }
    }

    /// The standard tuning: jump height 4, time to apex 0.4 s, run speed 500,
    /// dash speed 10000, coyote time 100 ms, slide factor 60, fall factor 100,
    /// jump-break factor 200, gravity scale 5; derived values recomputed.
    pub fn standard() -> (r: TuningParameters)
        ensures
            r.wf(),
            r.jump_height == 4_000,
            r.time_to_apex_ms == 400,
            r.run_speed == 500_000,
            r.dash_speed == 10_000_000,
            r.coyote_time_ms == 100,
            r.slide_factor == 60_000,
            r.fall_factor == 100_000,
            r.jump_break_factor == 200_000,
            r.gravity_scale == 5_000,
    {
        let mut p = TuningParameters {
            jump_height: 4_000,
            time_to_apex_ms: 400,
            run_speed: 500_000,
            dash_speed: 10_000_000,
            coyote_time_ms: 100,
            slide_factor: 60_000,
            fall_factor: 100_000,
            jump_break_factor: 200_000,
            gravity_scale: 5_000,
            gravity_y: 0,
            jump_power_coefficient: 0,
        };
        p.recompute();
        proof {
            assert(8_000_159_999int / 160_000int == 50_000) by (nonlinear_arith);
            assert(p.derived_gravity() == -50_000);
            lemma_floor_sqrt_unique(400_000_000, 20_000);
        }
        p
    }
}

} // verus!
