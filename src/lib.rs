//! Severity-gated interactive tracing: a pair of thresholds decides whether a
//! leveled message is printed and whether the caller then waits for an
//! operator at the terminal.
//!
//! The library holds the decisions and the text; a host program owns the
//! terminal, the keyboard and the process-wide store, and hands plain values
//! to the functions here.

pub mod gate;
pub mod panel;
pub mod text;

use vstd::prelude::*;

verus! {

/// The value of a threshold that no level reaches: levels are clamped to 9.
pub const NEVER: u8 = 10;

/// A threshold pair `(print, pause)` is consistent when `print <= pause <= 10`.
pub open spec fn consistent(t: (u8, u8)) -> bool {
    t.0 <= t.1 <= NEVER
}

pub open spec fn min_u8(a: u8, b: u8) -> u8 {
    if a <= b {
        a
    } else {
        b
    }
}

pub open spec fn max_u8(a: u8, b: u8) -> u8 {
    if a >= b {
        a
    } else {
        b
    }
}

/// The pair that a request for `(print, pause)` settles on.
///
/// When print takes precedence the pause threshold is raised to the print
/// threshold; otherwise the print threshold is lowered to the pause threshold.
/// Either way the pause threshold is capped at 10 and the print threshold at
/// the pause threshold.
pub open spec fn reconciled(print: u8, pause: u8, print_takes_precedence: bool) -> (u8, u8) {
    let settled_pause = if print_takes_precedence {
        min_u8(max_u8(print, pause), NEVER)
    } else {
        min_u8(pause, NEVER)
    };
    (min_u8(print, settled_pause), settled_pause)
}

/// The print and pause thresholds of a tracing session.
///
/// A message of level `l` is printed when `l >= print`, and the caller then
/// waits for the operator when also `l >= pause`.
pub struct Thresholds {
    print: u8,
    pause: u8,
}

impl View for Thresholds {
    type V = (u8, u8);

    closed spec fn view(&self) -> (u8, u8) {
        (self.print, self.pause)
    }
}

impl Thresholds {
    #[verifier::type_invariant]
    spec fn inv(self) -> bool {
        consistent((self.print, self.pause))
    }

    /// A fresh store: every level is printed and pauses.
    pub fn new() -> (r: Thresholds)
        ensures
            r@ == (0u8, 0u8),
    {
        Thresholds { print: 0, pause: 0 }
    }

}

/// Turns everything on: every level is printed and pauses.
pub fn on(t: &mut Thresholds)
    ensures
        final(t)@ == (0u8, 0u8),
{
    *t = Thresholds { print: 0, pause: 0 };
}

/// Turns everything off: no level is printed, none pauses.
pub fn off(t: &mut Thresholds)
    ensures
        final(t)@ == (NEVER, NEVER),
{
    *t = Thresholds { print: NEVER, pause: NEVER };
}

/// Stores the pair that `(print, pause)` settles on (see `reconciled`) and
/// returns it. Any input is accepted; the result is always consistent.
pub fn set(t: &mut Thresholds, print: u8, pause: u8, print_takes_precedence: bool) -> (r: (u8, u8))
    ensures
        r == reconciled(print, pause, print_takes_precedence),
        consistent(r),
        final(t)@ == r,
{
    let mut print = print;
    let mut pause = pause;
    if print_takes_precedence && print > pause {
        pause = print;
    } else if !print_takes_precedence && pause < print {
        print = pause;
    }
    if pause < print {
        pause = print;
    }
    if pause > NEVER {
        pause = NEVER;
    }
    if print > pause {
        print = pause;
    }
    *t = Thresholds { print, pause };
    (print, pause)
}

/// The current pair `(print, pause)`.
pub fn get(t: &Thresholds) -> (r: (u8, u8))
    ensures
        r == t@,
        consistent(r),
{
    proof {
        use_type_invariant(t);
    }
    (t.print, t.pause)
}

/// Whatever is asked, `set` settles on a consistent pair.
pub proof fn lemma_reconciled_is_consistent(print: u8, pause: u8, print_takes_precedence: bool)
    ensures
        consistent(reconciled(print, pause, print_takes_precedence)),
{
}

/// Setting the current pair again changes nothing, whichever side takes
/// precedence: `set(get().0, get().1, b)` returns and keeps `get()`.
pub proof fn lemma_set_current_is_identity(t: (u8, u8), print_takes_precedence: bool)
    requires
        consistent(t),
    ensures
        reconciled(t.0, t.1, print_takes_precedence) == t,
{
}

} // verus!

