//! Sprite-frame cycling and the fixed-interval clock that drives it.
use vstd::prelude::*;

verus! {

/// Number of cells in the player's sprite sheet (its column count).
pub const FRAME_COUNT: u32 = 8;

/// Length of one animation tick, in microseconds.
pub const TICK_PERIOD_MICROS: u64 = 125_000;

/// Most ticks that one update may fire when the host lags behind.
pub const MAX_TICKS_PER_UPDATE: u64 = 4;

/// The frame shown one tick after `frame`.
pub open spec fn next_frame_spec(frame: int) -> int {
    (frame + 1) % (FRAME_COUNT as int)
}

/// The frame shown `k` ticks after `frame`, one tick at a time.
pub open spec fn frame_after_ticks(frame: int, k: nat) -> int
    decreases k,
{
    if k == 0 {
        frame
    } else {
        next_frame_spec(frame_after_ticks(frame, (k - 1) as nat))
    }
}

/// Advances a frame index by one cell, wrapping at the end of the sheet.
pub fn next_frame(frame: u32) -> (r: u32)
    requires
        frame < FRAME_COUNT,
    ensures
        r == next_frame_spec(frame as int),
        r < FRAME_COUNT,
{
    (frame + 1) % FRAME_COUNT
}

/// Ticks of `k` fires, starting on the first cell, leave the sheet on cell
/// `k mod FRAME_COUNT`, always a valid cell.
pub proof fn lemma_frame_after_ticks_from_start(k: nat)
    ensures
        frame_after_ticks(0, k) == (k as int) % (FRAME_COUNT as int),
        0 <= frame_after_ticks(0, k) < FRAME_COUNT,
    decreases k,
{
    if k > 0 {
        lemma_frame_after_ticks_from_start((k - 1) as nat);
    }
}

/// Ticks of `k` fires from any valid cell land on `(frame + k) mod FRAME_COUNT`.
pub proof fn lemma_frame_after_ticks(frame: int, k: nat)
    requires
        0 <= frame < FRAME_COUNT,
    ensures
        frame_after_ticks(frame, k) == (frame + k) % (FRAME_COUNT as int),
    decreases k,
{
    if k > 0 {
        lemma_frame_after_ticks(frame, (k - 1) as nat);
    }
}

/// A fixed-interval clock: it collects elapsed time and fires one tick per
/// whole period, carrying the remainder into the next update.
pub struct FixedClock {
    /// Time collected towards the next tick, in microseconds.
    pub carried_micros: u64,
}

impl FixedClock {
    /// The carried time is always less than one period.
    pub open spec fn wf(&self) -> bool {
        self.carried_micros < TICK_PERIOD_MICROS
    }

    /// Ticks that `elapsed` more microseconds fire: one per whole period
    /// collected, at most `MAX_TICKS_PER_UPDATE`.
    pub open spec fn ticks_for(&self, elapsed: int) -> int {
        let due = (self.carried_micros + elapsed) / (TICK_PERIOD_MICROS as int);
        if due > MAX_TICKS_PER_UPDATE {
            MAX_TICKS_PER_UPDATE as int
        } else {
            due
        }
    }

    /// A clock with nothing collected yet.
    pub fn new() -> (r: FixedClock)
        ensures
            r.wf(),
            r.carried_micros == 0,
    {
        FixedClock { carried_micros: 0 }
    }

    /// Collects `elapsed` microseconds and returns the number of ticks due.
    /// Time beyond the tick cap is dropped; the part of a period left over is
    /// carried.
    pub fn advance(&mut self, elapsed: u64) -> (ticks: u64)
        requires
            old(self).wf(),
        ensures
            final(self).wf(),
            ticks == old(self).ticks_for(elapsed as int),
            final(self).carried_micros == (old(self).carried_micros + elapsed) % (
            TICK_PERIOD_MICROS as int),
    {
        let whole = elapsed / TICK_PERIOD_MICROS;
        let rest = elapsed % TICK_PERIOD_MICROS;
        let sum = self.carried_micros + rest;
        let extra = sum / TICK_PERIOD_MICROS;
        let carried = sum % TICK_PERIOD_MICROS;
        proof {
            let p = TICK_PERIOD_MICROS as int;
            let c = self.carried_micros as int;
            vstd::arithmetic::div_mod::lemma_fundamental_div_mod(elapsed as int, p);
            vstd::arithmetic::div_mod::lemma_fundamental_div_mod(sum as int, p);
            vstd::arithmetic::div_mod::lemma_fundamental_div_mod_converse_div(
                c + elapsed,
                p,
                whole + extra,
                carried as int,
            );
            vstd::arithmetic::div_mod::lemma_fundamental_div_mod_converse_mod(
                c + elapsed,
                p,
                whole + extra,
                carried as int,
            );
        }
        self.carried_micros = carried;
        let due = whole + extra;
        if due > MAX_TICKS_PER_UPDATE {
            MAX_TICKS_PER_UPDATE
        } else {
            due
        }
    }
}

} // verus!
