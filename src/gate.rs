use vstd::prelude::*;

use crate::{consistent, on, Thresholds, NEVER};

verus! {

/// The highest level; higher levels are clamped to it.
pub const MAX_LEVEL: u8 = 9;

/// What a level becomes before it is compared with the thresholds.
pub open spec fn clamped_level(level: u8) -> u8 {
    if level <= MAX_LEVEL {
        level
    } else {
        MAX_LEVEL
    }
}

/// Under thresholds `t`, a message at `level` is printed.
pub open spec fn emits(t: (u8, u8), level: u8) -> bool {
    clamped_level(level) >= t.0
}

/// Under thresholds `t`, a message at `level` is printed and the caller then
/// waits for the operator.
pub open spec fn pauses(t: (u8, u8), level: u8) -> bool {
    emits(t, level) && clamped_level(level) >= t.1
}

/// What one tracing call does, decided before any output.
#[derive(Clone, Copy, Debug)]
pub struct StepPlan {
    /// The level after clamping; the trace line shows it.
    pub level: u8,
    /// Whether the trace line is printed (and the message produced at all).
    pub emit: bool,
    /// Whether the caller waits at the control panel after printing.
    pub pause: bool,
    /// The thresholds the decision was made under, as `(print, pause)`.
    pub thresholds: (u8, u8),
}

/// `level` clamped to 9.
pub fn clamp_level(level: u8) -> (r: u8)
    ensures
        r == clamped_level(level),
{
    if level > MAX_LEVEL {
        MAX_LEVEL
    } else {
        level
    }
}

/// Decides one tracing call at `level`. When the sentinel file was seen the
/// store is first turned all on; otherwise it is left as it is. The message is
/// printed when the clamped level reaches the print threshold, and the caller
/// pauses when it is printed and the clamped level also reaches the pause
/// threshold.
pub fn plan_step(t: &mut Thresholds, sentinel_seen: bool, level: u8) -> (r: StepPlan)
    ensures
        sentinel_seen ==> final(t)@ == (0u8, 0u8),
        !sentinel_seen ==> final(t)@ == old(t)@,
        r.thresholds == final(t)@,
        r.level == clamped_level(level),
        r.emit == (r.level >= final(t)@.0),
        r.pause == (r.emit && r.level >= final(t)@.1),
        r.emit == emits(final(t)@, level),
        r.pause == pauses(final(t)@, level),
{
    if sentinel_seen {
        on(t);
    }
    let level = clamp_level(level);
    let thresholds = crate::get(t);
    let emit = level >= thresholds.0;
    let pause = emit && level >= thresholds.1;
    StepPlan { level, emit, pause, thresholds }
}

/// With everything on, a message at any level is printed and pauses.
pub proof fn lemma_all_on_traces_every_level(level: u8)
    ensures
        emits((0u8, 0u8), level),
        pauses((0u8, 0u8), level),
{
}

/// With everything off, a message at any level is neither printed nor pauses.
pub proof fn lemma_all_off_traces_nothing(level: u8)
    ensures
        !emits((NEVER, NEVER), level),
        !pauses((NEVER, NEVER), level),
{
}

/// Under consistent thresholds `(p, q)` and a level `l <= 9`, the message is
/// printed exactly when `l >= p`, and a printed message pauses exactly when
/// `l >= q`; so a level pauses exactly when `l >= q`.
pub proof fn lemma_gate(t: (u8, u8), level: u8)
    requires
        consistent(t),
        level <= MAX_LEVEL,
    ensures
        emits(t, level) <==> level >= t.0,
        emits(t, level) ==> (pauses(t, level) <==> level >= t.1),
        pauses(t, level) <==> level >= t.1,
{
}

} // verus!
