//! The display multiplexer.
//!
//! The matrix has one select line per row and one drive line per column, so
//! only one row can be lit at a time. The multiplexer keeps a snapshot of the
//! picture and a cursor made of a row and a sub-frame. Each timer tick moves
//! the cursor one sub-frame on and yields the pattern for the drive lines. A
//! row stays selected for `SUBFRAMES` ticks, its scan window, and a cell of
//! level `b` is lit during the first `b` of them.

use crate::image::{Image, in_grid, MAX_LEVEL, SIDE};
use vstd::prelude::*;

verus! {

/// Sub-frames in the scan window of one row.
pub const SUBFRAMES: u8 = 9;

/// Ticks in one full scan of the matrix: every sub-frame of every row.
pub const SCAN_TICKS: usize = 45;

/// Time between two ticks, in microseconds. A row's window then lasts 3 ms
/// and a full scan 15 ms.
pub const TICK_US: u32 = 333;

/// What the drive lines carry during one sub-frame: the selected row and, for
/// each column, whether the LED of that row is lit.
#[derive(Clone, Copy, Debug, PartialEq, Eq)]
pub struct DriveLines {
    pub row: usize,
    pub columns: [bool; 5],
}

/// Whether a cell of brightness `level` is lit in sub-frame `phase` of its
/// row's scan window.
pub open spec fn lit_in_subframe(level: u8, phase: int) -> bool {
    phase < level
}

/// The multiplexer as a mathematical value: the picture on display and the
/// cursor, which names the sub-frame that the latest tick selected.
pub struct DisplayState {
    pub image: Image,
    pub row: int,
    pub phase: int,
}

impl DisplayState {
    /// The cursor lies within the grid's rows and the window's sub-frames.
    pub open spec fn wf(self) -> bool {
        0 <= self.row < SIDE && 0 <= self.phase < SUBFRAMES
    }

    /// The state after a new picture is handed over: the whole picture is
    /// replaced and the cursor stays.
    pub open spec fn shown(self, image: Image) -> DisplayState {
        DisplayState { image, ..self }
    }

    /// The state after one tick: the cursor moves to the next sub-frame, from
    /// the last sub-frame of a row to the first of the next row, and from the
    /// last row back to the first.
    pub open spec fn ticked(self) -> DisplayState {
        if self.phase + 1 < SUBFRAMES {
            DisplayState { phase: self.phase + 1, ..self }
        } else if self.row + 1 < SIDE {
            DisplayState { row: self.row + 1, phase: 0, ..self }
        } else {
            DisplayState { row: 0, phase: 0, ..self }
        }
    }

    /// Whether the LED at `(row, col)` is lit in the sub-frame under the
    /// cursor.
    pub open spec fn lights(self, row: int, col: int) -> bool {
        self.row == row && lit_in_subframe(self.image[row][col], self.phase)
    }

    /// `lines` is the drive pattern of the sub-frame under the cursor.
    pub open spec fn drives(self, lines: DriveLines) -> bool {
        &&& lines.row == self.row
        &&& forall|col: int|
            0 <= col < SIDE ==> #[trigger] lines.columns[col] == self.lights(self.row, col)
    }
}

/// The display multiplexer: a snapshot of the picture and the scan cursor.
pub struct Multiplexer {
    image: Image,
    row: usize,
    phase: u8,
}

impl View for Multiplexer {
    type V = DisplayState;

    closed spec fn view(&self) -> DisplayState {
        DisplayState { image: self.image, row: self.row as int, phase: self.phase as int }
    }
}

impl Multiplexer {
    #[verifier::type_invariant]
    spec fn cursor_in_range(self) -> bool {
        self@.wf()
    }

    /// A multiplexer that shows a blank picture. Its cursor rests on the last
    /// sub-frame of the last row, so the first tick selects the first
    /// sub-frame of the first row.
    pub fn new() -> (display: Multiplexer)
        ensures
            display@.wf(),
            display@.row == SIDE - 1,
            display@.phase == SUBFRAMES - 1,
            forall|row: int, col: int|
                in_grid(row, col) ==> #[trigger] display@.image[row][col] == 0,
    {
        Multiplexer { image: [[0u8; 5]; 5], row: SIDE - 1, phase: SUBFRAMES - 1 }
    }

    /// Replaces the picture on display by a copy of `image`. The cursor is
    /// left alone, and later changes to `image` do not reach the display.
    pub fn show(&mut self, image: &Image)
        ensures
            final(self)@ == old(self)@.shown(*image),
            final(self)@.wf(),
    {
        proof {
            use_type_invariant(&*self);
        }
        self.image = *image;
    }

    /// Advances the scan by one sub-frame and returns the pattern that the
    /// drive lines carry until the next tick. The picture is not changed.
    pub fn handle_tick(&mut self) -> (lines: DriveLines)
        ensures
            final(self)@ == old(self)@.ticked(),
            final(self)@.drives(lines),
            final(self)@.wf(),
    {
        proof {
            use_type_invariant(&*self);
        }
        if self.phase + 1 < SUBFRAMES {
            self.phase = self.phase + 1;
        } else {
            self.phase = 0;
            if self.row + 1 < SIDE {
                self.row = self.row + 1;
            } else {
                self.row = 0;
            }
        }
        let mut columns: [bool; 5] = [false; 5];
        let mut col: usize = 0;
        while col < SIDE
            invariant
                col <= SIDE,
                self@.wf(),
                self@ == old(self)@.ticked(),
                forall|c: int| 0 <= c < col ==> columns[c] == self@.lights(self@.row, c),
            decreases SIDE - col,
        {
            columns[col] = self.image[self.row][col] > self.phase;
            col += 1;
        }
        DriveLines { row: self.row, columns }
    }

    /// The picture on display.
    pub fn image(&self) -> (image: Image)
        ensures
            image == self@.image,
    {
        self.image
    }

    /// The cursor: the row and the sub-frame that the latest tick selected.
    pub fn cursor(&self) -> (cursor: (usize, u8))
        ensures
            cursor.0 == self@.row,
            cursor.1 == self@.phase,
            self@.wf(),
    {
        proof {
            use_type_invariant(self);
        }
        (self.row, self.phase)
    }
}

/// Number of sub-frames, among the first `upto` of a scan window, in which a
/// cell of brightness `level` is lit.
pub open spec fn lit_subframes(level: u8, upto: nat) -> nat
    decreases upto,
{
    if upto == 0 {
        0
    } else {
        lit_subframes(level, (upto - 1) as nat) + if lit_in_subframe(level, upto - 1) {
            1nat
        } else {
            0nat
        }
    }
}

/// The on-duration of a brightness level: the number of sub-frames of a whole
/// scan window in which a cell of that level is lit.
pub open spec fn on_duration(level: u8) -> nat {
    lit_subframes(level, SUBFRAMES as nat)
}

/// The state that `ticks` ticks lead to from `state`.
pub open spec fn after_ticks(state: DisplayState, ticks: nat) -> DisplayState
    decreases ticks,
{
    if ticks == 0 {
        state
    } else {
        after_ticks(state, (ticks - 1) as nat).ticked()
    }
}

/// Number of ticks, among the first `ticks` after `state`, that light the LED
/// at `(row, col)`.
pub open spec fn lit_ticks(state: DisplayState, row: int, col: int, ticks: nat) -> nat
    decreases ticks,
{
    if ticks == 0 {
        0
    } else {
        lit_ticks(state, row, col, (ticks - 1) as nat) + if after_ticks(state, ticks).lights(
            row,
            col,
        ) {
            1nat
        } else {
            0nat
        }
    }
}

/// A cell is lit during the first `level` sub-frames of a window and dark
/// during the rest.
pub proof fn lemma_lit_subframes(level: u8, upto: nat)
    ensures
        lit_subframes(level, upto) == if upto <= level {
            upto
        } else {
            level as nat
        },
    decreases upto,
{
    if upto > 0 {
        lemma_lit_subframes(level, (upto - 1) as nat);
    }
}

/// Brightness law. The on-duration of a level from 0 to `MAX_LEVEL` is the
/// level itself, counted in sub-frames. So it never shrinks when the level
/// grows, level 0 is never lit, and `MAX_LEVEL` is lit for the whole window.
pub proof fn lemma_on_duration_follows_level(dimmer: u8, brighter: u8)
    requires
        dimmer <= brighter <= MAX_LEVEL,
    ensures
        on_duration(dimmer) == dimmer,
        on_duration(brighter) == brighter,
        on_duration(dimmer) <= on_duration(brighter),
        on_duration(0) == 0,
        on_duration(MAX_LEVEL) == SUBFRAMES,
{
    lemma_lit_subframes(dimmer, SUBFRAMES as nat);
    lemma_lit_subframes(brighter, SUBFRAMES as nat);
    lemma_lit_subframes(0, SUBFRAMES as nat);
    lemma_lit_subframes(MAX_LEVEL, SUBFRAMES as nat);
}

/// A level above `MAX_LEVEL` is shown like `MAX_LEVEL`.
pub proof fn lemma_on_duration_saturates(level: u8)
    requires
        level >= MAX_LEVEL,
    ensures
        on_duration(level) == SUBFRAMES,
{
    lemma_lit_subframes(level, SUBFRAMES as nat);
}

/// Within a scan window that starts after `state`, the first `ticks` ticks
/// keep the window's row selected and walk through its sub-frames in order.
proof fn lemma_window_prefix(state: DisplayState, col: int, ticks: nat)
    requires
        state.wf(),
        state.phase == SUBFRAMES - 1,
        0 <= col < SIDE,
        1 <= ticks <= SUBFRAMES,
    ensures
        after_ticks(state, ticks).image == state.image,
        after_ticks(state, ticks).row == state.ticked().row,
        after_ticks(state, ticks).phase == ticks - 1,
        lit_ticks(state, state.ticked().row, col, ticks) == lit_subframes(
            state.image[state.ticked().row][col],
            ticks,
        ),
    decreases ticks,
{
    let row = state.ticked().row;
    if ticks == 1 {
        assert(after_ticks(state, 0) == state);
        assert(after_ticks(state, 1) == state.ticked());
        assert(lit_ticks(state, row, col, 0) == 0);
        assert(lit_subframes(state.image[row][col], 0) == 0);
    } else {
        lemma_window_prefix(state, col, (ticks - 1) as nat);
    }
}

/// Realised brightness. Take a state whose cursor rests on the last sub-frame
/// of a row. The next `SUBFRAMES` ticks are the scan window of the following
/// row: that row stays selected throughout, and the number of those ticks
/// that light the LED of column `col` is the on-duration of its level.
pub proof fn lemma_window_realises_on_duration(state: DisplayState, col: int)
    requires
        state.wf(),
        state.phase == SUBFRAMES - 1,
        0 <= col < SIDE,
    ensures
        forall|ticks: nat|
            1 <= ticks <= SUBFRAMES ==> #[trigger] after_ticks(state, ticks).row
                == state.ticked().row,
        lit_ticks(state, state.ticked().row, col, SUBFRAMES as nat) == on_duration(
            state.image[state.ticked().row][col],
        ),
{
    assert forall|ticks: nat| 1 <= ticks <= SUBFRAMES implies #[trigger] after_ticks(
        state,
        ticks,
    ).row == state.ticked().row by {
        lemma_window_prefix(state, col, ticks);
    }
    lemma_window_prefix(state, col, SUBFRAMES as nat);
}

/// Position of the cursor within a full scan, counted in ticks from the first
/// sub-frame of the first row.
pub open spec fn slot_of(state: DisplayState) -> int {
    state.row * SUBFRAMES + state.phase
}

/// Whether the LED at `(row, col)` is lit while the cursor is at the position
/// that `slot` names, positions being counted round and round the scan.
spec fn slot_lights(image: Image, slot: int, row: int, col: int) -> bool {
    let within = slot % (SCAN_TICKS as int);
    within / (SUBFRAMES as int) == row && lit_in_subframe(
        image[row][col],
        within % (SUBFRAMES as int),
    )
}

/// Number of positions below `upto` at which the LED at `(row, col)` is lit.
spec fn lit_slots(image: Image, row: int, col: int, upto: nat) -> nat
    decreases upto,
{
    if upto == 0 {
        0
    } else {
        lit_slots(image, row, col, (upto - 1) as nat) + if slot_lights(image, upto - 1, row, col) {
            1nat
        } else {
            0nat
        }
    }
}

/// `lit_slots` within the first scan: nothing before the window of `row`, one
/// position for each lit sub-frame inside it, the whole on-duration after it.
spec fn lit_slots_in_scan(level: u8, row: int, upto: int) -> int {
    let start = row * SUBFRAMES;
    if upto <= start {
        0
    } else if upto >= start + SUBFRAMES {
        on_duration(level) as int
    } else {
        lit_subframes(level, (upto - start) as nat) as int
    }
}

/// A position of the scan names one row and one sub-frame.
proof fn lemma_position(row: int, phase: int)
    requires
        0 <= row < SIDE,
        0 <= phase < SUBFRAMES,
    ensures
        0 <= row * SUBFRAMES + phase < SCAN_TICKS,
        (row * SUBFRAMES + phase) / (SUBFRAMES as int) == row,
        (row * SUBFRAMES + phase) % (SUBFRAMES as int) == phase,
        (row * SUBFRAMES + phase) % (SCAN_TICKS as int) == row * SUBFRAMES + phase,
{
    assert(SIDE == 5 && SUBFRAMES == 9 && SCAN_TICKS == 45);
    let slot = row * 9 + phase;
    assert(0 <= slot < 45);
    assert(slot / 9 == row);
    assert(slot % 9 == phase);
    assert(slot % 45 == slot);
}

proof fn lemma_lit_slots(image: Image, row: int, col: int, upto: nat)
    requires
        in_grid(row, col),
        upto <= 2 * SCAN_TICKS,
    ensures
        lit_slots(image, row, col, upto) == if upto <= SCAN_TICKS {
            lit_slots_in_scan(image[row][col], row, upto as int)
        } else {
            on_duration(image[row][col]) + lit_slots_in_scan(
                image[row][col],
                row,
                upto - SCAN_TICKS,
            )
        },
    decreases upto,
{
    let level = image[row][col];
    lemma_lit_subframes(level, SUBFRAMES as nat);
    if upto > 0 {
        lemma_lit_slots(image, row, col, (upto - 1) as nat);
        assert(SIDE == 5 && SUBFRAMES == 9 && SCAN_TICKS == 45);
        let slot = upto - 1;
        let within = if slot < 45 {
            slot
        } else {
            slot - 45
        };
        assert(slot % 45 == within);
        let start = row * 9;
        if start <= within < start + 9 {
            lemma_position(row, within - start);
            lemma_lit_subframes(level, (within - start) as nat);
            lemma_lit_subframes(level, (within - start + 1) as nat);
            assert(slot_lights(image, slot, row, col) == lit_in_subframe(level, within - start));
        } else {
            assert(within / 9 != row);
            assert(!slot_lights(image, slot, row, col));
        }
    }
}

/// The cursor wraps within its range. One tick moves a cursor that lies
/// within the grid's rows and the window's sub-frames to the next position of
/// the scan, and from the last position to the first; it stays within that
/// range, and the picture stays as it is.
pub proof fn lemma_tick_advances_slot(state: DisplayState)
    requires
        state.wf(),
    ensures
        state.ticked().wf(),
        state.ticked().image == state.image,
        0 <= slot_of(state) < SCAN_TICKS,
        slot_of(state.ticked()) == if slot_of(state) + 1 < SCAN_TICKS {
            slot_of(state) + 1
        } else {
            0
        },
{
    assert(SIDE == 5 && SUBFRAMES == 9 && SCAN_TICKS == 45);
    lemma_position(state.row, state.phase);
}

/// Two cursors at the same position of the scan are the same cursor.
proof fn lemma_slot_names_cursor(a: DisplayState, b: DisplayState)
    requires
        a.wf(),
        b.wf(),
        slot_of(a) == slot_of(b),
    ensures
        a.row == b.row,
        a.phase == b.phase,
{
    lemma_position(a.row, a.phase);
    lemma_position(b.row, b.phase);
}

/// Counting positions round and round: the position after `slot - 1` is
/// `slot`.
proof fn lemma_wrap_step(slot: int)
    requires
        1 <= slot,
    ensures
        slot % (SCAN_TICKS as int) == if (slot - 1) % (SCAN_TICKS as int) + 1 < SCAN_TICKS {
            (slot - 1) % (SCAN_TICKS as int) + 1
        } else {
            0
        },
{
    assert(SCAN_TICKS == 45);
    assert(slot % 45 == if (slot - 1) % 45 + 1 < 45 {
        (slot - 1) % 45 + 1
    } else {
        0
    });
}

/// A state lights an LED exactly when its position in the scan does.
proof fn lemma_lights_by_slot(state: DisplayState, slot: int, row: int, col: int)
    requires
        state.wf(),
        in_grid(row, col),
        0 <= slot,
        slot_of(state) == slot % (SCAN_TICKS as int),
    ensures
        state.lights(row, col) == slot_lights(state.image, slot, row, col),
{
    lemma_position(state.row, state.phase);
}

proof fn lemma_ticks_walk_the_scan(state: DisplayState, row: int, col: int, ticks: nat)
    requires
        state.wf(),
        in_grid(row, col),
        ticks <= SCAN_TICKS,
    ensures
        after_ticks(state, ticks).wf(),
        after_ticks(state, ticks).image == state.image,
        slot_of(after_ticks(state, ticks)) == (slot_of(state) + ticks) % (SCAN_TICKS as int),
        lit_ticks(state, row, col, ticks) == lit_slots(
            state.image,
            row,
            col,
            (slot_of(state) + 1 + ticks) as nat,
        ) - lit_slots(state.image, row, col, (slot_of(state) + 1) as nat),
    decreases ticks,
{
    lemma_tick_advances_slot(state);
    if ticks > 0 {
        lemma_ticks_walk_the_scan(state, row, col, (ticks - 1) as nat);
        let before = after_ticks(state, (ticks - 1) as nat);
        let after = after_ticks(state, ticks);
        assert(after == before.ticked());
        lemma_tick_advances_slot(before);
        let slot = slot_of(state) + ticks;
        lemma_wrap_step(slot);
        lemma_lights_by_slot(after, slot, row, col);
    } else {
        lemma_position(state.row, state.phase);
    }
}

/// Steady brightness. From any state, the `SCAN_TICKS` ticks of one full scan
/// light the LED at `(row, col)` for as many ticks as the on-duration of its
/// level, wherever in the scan the cursor stood, and bring the cursor back to
/// where it stood.
pub proof fn lemma_scan_realises_on_duration(state: DisplayState, row: int, col: int)
    requires
        state.wf(),
        in_grid(row, col),
    ensures
        lit_ticks(state, row, col, SCAN_TICKS as nat) == on_duration(state.image[row][col]),
        after_ticks(state, SCAN_TICKS as nat) == state,
{
    lemma_ticks_walk_the_scan(state, row, col, SCAN_TICKS as nat);
    lemma_lit_slots(state.image, row, col, (slot_of(state) + 1) as nat);
    lemma_lit_slots(state.image, row, col, (slot_of(state) + 1 + SCAN_TICKS) as nat);
    let after = after_ticks(state, SCAN_TICKS as nat);
    lemma_position(state.row, state.phase);
    assert(SCAN_TICKS == 45);
    assert((slot_of(state) + 45) % 45 == slot_of(state));
    lemma_slot_names_cursor(after, state);
}

/// The refresh rate. A window has one sub-frame for each level above 0, a
/// full scan has one window for each row, and at `TICK_US` microseconds a
/// tick the scan is over within 15 ms, so the picture is redrawn more than
/// sixty times a second.
pub proof fn lemma_refresh_rate()
    ensures
        SUBFRAMES == MAX_LEVEL,
        SCAN_TICKS == SIDE * SUBFRAMES,
        SCAN_TICKS * TICK_US <= 15_000,
        SCAN_TICKS * TICK_US * 60 <= 1_000_000,
{
}

/// One call on the multiplexer, as the lock around it serialises them.
pub enum DisplayCall {
    /// `show` with this picture.
    Show(Image),
    /// `handle_tick`.
    Tick,
}

/// The state that the calls `calls`, made in order, lead to from `state`.
pub open spec fn after_calls(state: DisplayState, calls: Seq<DisplayCall>) -> DisplayState
    decreases calls.len(),
{
    if calls.len() == 0 {
        state
    } else {
        let before = after_calls(state, calls.drop_last());
        match calls.last() {
            DisplayCall::Show(image) => before.shown(image),
            DisplayCall::Tick => before.ticked(),
        }
    }
}

/// The picture handed over by the last `show` among `calls`, or `initial`
/// where there is none.
pub open spec fn latest_picture(initial: Image, calls: Seq<DisplayCall>) -> Image
    decreases calls.len(),
{
    if calls.len() == 0 {
        initial
    } else {
        match calls.last() {
            DisplayCall::Show(image) => image,
            DisplayCall::Tick => latest_picture(initial, calls.drop_last()),
        }
    }
}

/// Whatever calls were made, the picture on display is one whole picture: the
/// one that the latest `show` handed over.
pub proof fn lemma_picture_is_latest(state: DisplayState, calls: Seq<DisplayCall>)
    requires
        state.wf(),
    ensures
        after_calls(state, calls).wf(),
        after_calls(state, calls).image == latest_picture(state.image, calls),
    decreases calls.len(),
{
    if calls.len() > 0 {
        lemma_picture_is_latest(state, calls.drop_last());
    }
}

/// Atomicity of `show` towards `handle_tick`. In any interleaving of the two
/// calls, the pattern that a tick puts on the drive lines is taken, column by
/// column, from a single picture: the one handed over by the latest `show`
/// before that tick. No tick renders part of an older picture and part of a
/// newer one.
pub proof fn lemma_tick_renders_one_picture(
    state: DisplayState,
    calls: Seq<DisplayCall>,
    index: int,
    lines: DriveLines,
)
    requires
        state.wf(),
        0 <= index < calls.len(),
        calls[index] is Tick,
        after_calls(state, calls.take(index + 1)).drives(lines),
    ensures
        0 <= lines.row < SIDE,
        forall|col: int|
            0 <= col < SIDE ==> lines.columns[col] == lit_in_subframe(
                latest_picture(state.image, calls.take(index))[lines.row as int][col],
                after_calls(state, calls.take(index + 1)).phase,
            ),
{
    let upto = calls.take(index + 1);
    assert(upto.drop_last() == calls.take(index));
    assert(upto.last() == calls[index]);
    lemma_picture_is_latest(state, calls.take(index));
    lemma_picture_is_latest(state, upto);
}

} // verus!
