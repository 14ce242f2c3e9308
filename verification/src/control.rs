//! The control loop as a state machine.
//!
//! The loop has two modes. In `Idle` it shows the dot and polls the fall
//! detector once. In `Alarm` it shows the exclamation mark, holds it, sounds
//! the tone to its end and rests for a moment. A poll that reports a fall
//! leads from `Idle` to `Alarm`; the end of the alarm always leads back to
//! `Idle`. The caller runs the loop: for each pass it asks for the picture
//! and the task of the current mode, carries the task out, and reports what
//! happened.

use crate::alarm::{yell, Tone};
use crate::fall::{board_is_falling, is_falling, reaches_one_g, SensorReading};
use crate::image::{display_a_single_dot, show_exclaimation, shows_dot, shows_exclamation, Image};
use vstd::prelude::*;

verus! {

/// Time for which the exclamation mark is held before the tone starts, in
/// milliseconds.
pub const EXCLAMATION_HOLD_MS: u32 = 1000;

/// Rest after the tone, in cycles of the board's 1 MHz timer.
pub const REST_CYCLES: u32 = 1000;

/// Mode of the control loop.
#[derive(Clone, Copy, Debug, PartialEq, Eq)]
pub enum Mode {
    /// Nothing detected: the dot is shown and the sensor is polled.
    Idle,
    /// A fall was detected: the exclamation mark is shown and the tone
    /// sounds.
    Alarm,
}

/// What happened while the task of a mode was carried out.
#[derive(Clone, Copy, Debug, PartialEq, Eq)]
pub enum Event {
    /// The sensor was polled and gave this reading.
    Polled(SensorReading),
    /// The alarm ran to its end.
    AlarmDone,
}

/// What the loop does in a mode once the picture of that mode is on display.
pub enum Task {
    /// Poll the sensor once and report the reading.
    Poll,
    /// Hold the picture for `hold_ms` milliseconds, play `tone` to its end,
    /// rest for `rest_cycles` timer cycles, and report that the alarm is
    /// done.
    Sound { hold_ms: u32, tone: Tone, rest_cycles: u32 },
}

/// `image` is the picture of `mode`: the dot in `Idle`, the exclamation mark
/// in `Alarm`.
pub open spec fn shows_mode(mode: Mode, image: Image) -> bool {
    match mode {
        Mode::Idle => shows_dot(image),
        Mode::Alarm => shows_exclamation(image),
    }
}

/// The mode that follows `mode` after `event`. `Idle` turns into `Alarm` on a
/// poll that reports a fall, and stays otherwise. `Alarm` turns into `Idle`
/// whatever happened.
pub open spec fn next_mode(mode: Mode, event: Event) -> Mode {
    match (mode, event) {
        (Mode::Idle, Event::Polled(reading)) => if is_falling(reading) {
            Mode::Alarm
        } else {
            Mode::Idle
        },
        (Mode::Idle, Event::AlarmDone) => Mode::Idle,
        (Mode::Alarm, _) => Mode::Idle,
    }
}

/// The mode in which the loop starts.
pub fn start() -> (mode: Mode)
    ensures
        mode == Mode::Idle,
{
    Mode::Idle
}

/// Draws the picture of `mode` into `image`.
pub fn render(mode: Mode, image: &mut Image)
    ensures
        shows_mode(mode, *final(image)),
{
    match mode {
        Mode::Idle => display_a_single_dot(image),
        Mode::Alarm => show_exclaimation(image),
    }
}

/// Says what the loop does in `mode` after showing its picture.
pub fn task_for(mode: Mode) -> (task: Task)
    ensures
        mode == Mode::Idle ==> task is Poll,
        mode == Mode::Alarm ==> (task matches Task::Sound { hold_ms, tone, rest_cycles }
            && hold_ms == EXCLAMATION_HOLD_MS && tone@ == 0 && rest_cycles == REST_CYCLES),
{
    match mode {
        Mode::Idle => Task::Poll,
        Mode::Alarm => Task::Sound {
            hold_ms: EXCLAMATION_HOLD_MS,
            tone: yell(),
            rest_cycles: REST_CYCLES,
        },
    }
}

/// Moves the loop on: returns the mode that follows `mode` after `event`.
pub fn step(mode: Mode, event: &Event) -> (next: Mode)
    ensures
        next == next_mode(mode, *event),
        (next == Mode::Alarm) == (match (mode, *event) {
            (Mode::Idle, Event::Polled(SensorReading::Sample(sample))) => reaches_one_g(sample),
            _ => false,
        }),
{
    match mode {
        Mode::Idle => match event {
            Event::Polled(reading) => if board_is_falling(reading) {
                Mode::Alarm
            } else {
                Mode::Idle
            },
            Event::AlarmDone => Mode::Idle,
        },
        Mode::Alarm => Mode::Idle,
    }
}

/// The alarm cycle. From `Idle`, a reading that counts as a fall leads to
/// `Alarm`, and whatever is reported next leads back to `Idle`.
pub proof fn lemma_alarm_cycle(reading: SensorReading, event: Event)
    requires
        is_falling(reading),
    ensures
        next_mode(Mode::Idle, Event::Polled(reading)) == Mode::Alarm,
        next_mode(next_mode(Mode::Idle, Event::Polled(reading)), event) == Mode::Idle,
{
}

/// Only a fall raises the alarm: `Alarm` is entered from `Idle` alone, and
/// there on a poll whose reading counts as a fall.
pub proof fn lemma_alarm_needs_fall(mode: Mode, event: Event)
    ensures
        next_mode(mode, event) == Mode::Alarm <==> (mode == Mode::Idle && (match event {
            Event::Polled(reading) => is_falling(reading),
            Event::AlarmDone => false,
        })),
{
}

} // verus!
