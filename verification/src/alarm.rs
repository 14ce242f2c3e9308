//! The alarm tone: a square wave on the speaker pin.
//!
//! The tone is a fixed run of steps. Each step sets the pin to one level and
//! holds it for half a period; a high step and the low step after it make one
//! cycle. The caller writes the pin and waits; this module says in which order
//! and for how long.

use vstd::prelude::*;

verus! {

/// Cycles of the square wave in one alarm.
pub const TONE_CYCLES: u16 = 200;

/// Time for which the pin rests at each level, in microseconds. Two of them
/// are one period, which gives a tone of 1 kHz.
pub const HALF_PERIOD_US: u16 = 500;

/// Steps in one alarm: two for each cycle.
pub const TONE_STEPS: u16 = 2 * TONE_CYCLES;

/// Level of the speaker pin.
#[derive(Clone, Copy, Debug, PartialEq, Eq)]
pub enum PinLevel {
    High,
    Low,
}

/// One step of the tone: the level to set, and the time to hold it.
#[derive(Clone, Copy, Debug, PartialEq, Eq)]
pub struct ToneStep {
    pub level: PinLevel,
    pub hold_us: u16,
}

/// The step at position `index` of the tone: high at even positions, low at
/// odd ones, each held for `HALF_PERIOD_US`.
pub open spec fn step_at(index: int) -> ToneStep {
    ToneStep {
        level: if index % 2 == 0 {
            PinLevel::High
        } else {
            PinLevel::Low
        },
        hold_us: HALF_PERIOD_US,
    }
}

/// Time that the first `steps` steps of the tone take, in microseconds.
pub open spec fn duration_us(steps: nat) -> nat
    decreases steps,
{
    if steps == 0 {
        0
    } else {
        duration_us((steps - 1) as nat) + step_at(steps - 1).hold_us as nat
    }
}

/// An alarm tone in progress. Its view is the number of steps handed out so
/// far.
pub struct Tone {
    emitted: u16,
}

impl View for Tone {
    type V = nat;

    closed spec fn view(&self) -> nat {
        self.emitted as nat
    }
}

impl Tone {
    #[verifier::type_invariant]
    spec fn within_tone(self) -> bool {
        self.emitted <= TONE_STEPS
    }

    /// Hands out the next step of the tone, or `None` once all `TONE_STEPS`
    /// steps have been handed out.
    pub fn next_step(&mut self) -> (step: Option<ToneStep>)
        ensures
            old(self)@ < TONE_STEPS ==> step == Some(step_at(old(self)@ as int)) && final(self)@
                == old(self)@ + 1,
            old(self)@ >= TONE_STEPS ==> step is None && final(self)@ == old(self)@,
            final(self)@ <= TONE_STEPS,
    {
        proof {
            use_type_invariant(&*self);
        }
        if self.emitted < TONE_STEPS {
            let level = if self.emitted % 2 == 0 {
                PinLevel::High
            } else {
                PinLevel::Low
            };
            self.emitted = self.emitted + 1;
            Some(ToneStep { level, hold_us: HALF_PERIOD_US })
        } else {
            None
        }
    }

    /// Number of whole cycles handed out so far.
    pub fn cycles_done(&self) -> (cycles: u16)
        ensures
            cycles == self@ / 2,
            cycles <= TONE_CYCLES,
    {
        proof {
            use_type_invariant(self);
        }
        self.emitted / 2
    }
}

/// Starts an alarm tone: a square wave of `TONE_CYCLES` cycles, none of whose
/// steps has been handed out yet.
pub fn yell() -> (tone: Tone)
    ensures
        tone@ == 0,
{
    Tone { emitted: 0 }
}

/// Every step holds the pin for `HALF_PERIOD_US`, so the steps add up to that
/// time for each.
pub proof fn lemma_duration(steps: nat)
    ensures
        duration_us(steps) == steps * HALF_PERIOD_US,
    decreases steps,
{
    if steps > 0 {
        lemma_duration((steps - 1) as nat);
        assert(duration_us(steps) == (steps - 1) * HALF_PERIOD_US + HALF_PERIOD_US);
        assert((steps - 1) * HALF_PERIOD_US + HALF_PERIOD_US == steps * HALF_PERIOD_US)
            by (nonlinear_arith);
    }
}

/// The shape of the tone. It starts high, each cycle is a high step followed
/// by a low step, and the whole alarm lasts `TONE_CYCLES` periods of two
/// half-periods each: a fifth of a second.
pub proof fn lemma_tone_is_square_wave(cycle: int)
    requires
        0 <= cycle < TONE_CYCLES,
    ensures
        step_at(2 * cycle).level == PinLevel::High,
        step_at(2 * cycle + 1).level == PinLevel::Low,
        step_at(2 * cycle).hold_us + step_at(2 * cycle + 1).hold_us == 2 * HALF_PERIOD_US,
        0 <= 2 * cycle < 2 * cycle + 1 < TONE_STEPS,
        duration_us(TONE_STEPS as nat) == TONE_CYCLES * (2 * HALF_PERIOD_US),
        duration_us(TONE_STEPS as nat) == 200_000,
{
    lemma_duration(TONE_STEPS as nat);
}

} // verus!
