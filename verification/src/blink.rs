//! The caret blink clock: derives caret visibility from elapsed time
//! modulo the configured blink period, anchored at the same start instant
//! as the scanner so blinking and reveal never drift apart.

use vstd::prelude::*;
use vstd::arithmetic::div_mod::{
    lemma_fundamental_div_mod, lemma_fundamental_div_mod_converse, lemma_mod_bound,
};

verus! {

/// Whether the caret glyph is in its visible phase: even multiples of the
/// period are on, odd ones off. A zero period never hides the caret.
pub open spec fn blink_spec(elapsed: int, period: int) -> bool {
    if period <= 0 {
        true
    } else {
        (elapsed / period) % 2 == 0
    }
}

/// Decides caret visibility from the elapsed time and the blink period,
/// both in milliseconds.
pub fn is_visible(elapsed: u64, blink_period: u64) -> (r: bool)
    ensures
        r == blink_spec(elapsed as int, blink_period as int),
{
    if blink_period == 0 {
        true
    } else {
        (elapsed / blink_period) % 2 == 0
    }
}

/// Blink periodicity: visibility follows a square wave of period twice the
/// blink period, anchored at elapsed time zero — the caret is visible
/// exactly while `elapsed % (2 * period) < period`.
pub proof fn lemma_blink_periodicity(elapsed: int, period: int)
    requires
        period > 0,
        elapsed >= 0,
    ensures
        blink_spec(elapsed, period) <==> elapsed % (2 * period) < period,
{
    let q: int = elapsed / period;
    let r: int = elapsed % period;
    lemma_fundamental_div_mod(elapsed, period);
    lemma_mod_bound(elapsed, period);
    let h: int = q / 2;
    let b: int = q % 2;
    lemma_fundamental_div_mod(q, 2);
    lemma_mod_bound(q, 2);
    if b == 0 {
        assert(elapsed == h * (2 * period) + r) by (nonlinear_arith)
            requires
                elapsed == period * q + r,
                q == 2 * h + b,
                b == 0,
        ;
        lemma_fundamental_div_mod_converse(elapsed, 2 * period, h, r);
    } else {
        assert(elapsed == h * (2 * period) + (period + r)) by (nonlinear_arith)
            requires
                elapsed == period * q + r,
                q == 2 * h + b,
                b == 1,
        ;
        lemma_fundamental_div_mod_converse(elapsed, 2 * period, h, period + r);
    }
}

} // verus!
