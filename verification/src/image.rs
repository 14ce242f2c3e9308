//! The pixel buffer and the two pictures the alarm draws into it.

use vstd::prelude::*;

verus! {

/// Number of rows, and of columns, of the LED grid.
pub const SIDE: usize = 5;

/// Brightest level of a cell. Level 0 is off.
pub const MAX_LEVEL: u8 = 9;

/// Index of the middle row, and of the middle column.
pub const CENTRE: usize = 2;

/// Row of the gap between the stroke of the exclamation mark and its point.
pub const GAP_ROW: usize = 3;

/// The pixel buffer: five rows, top first, of five brightness levels, left
/// first.
pub type Image = [[u8; 5]; 5];

/// Whether `(row, col)` names a cell of the grid.
pub open spec fn in_grid(row: int, col: int) -> bool {
    0 <= row < SIDE && 0 <= col < SIDE
}

/// Every cell holds a level from 0 to `MAX_LEVEL`.
pub open spec fn levels_in_range(image: Image) -> bool {
    forall|row: int, col: int| in_grid(row, col) ==> #[trigger] image[row][col] <= MAX_LEVEL
}

/// The cells that the dot lights: the centre cell alone.
pub open spec fn dot_lit(row: int, col: int) -> bool {
    row == CENTRE && col == CENTRE
}

/// The cells that the exclamation mark lights: the middle column without the
/// cell in `GAP_ROW`.
pub open spec fn exclamation_lit(row: int, col: int) -> bool {
    col == CENTRE && 0 <= row < SIDE && row != GAP_ROW
}

/// Level of a cell of a two-tone picture: full brightness where it is lit,
/// off elsewhere.
pub open spec fn glyph_level(lit: bool) -> u8 {
    if lit {
        MAX_LEVEL
    } else {
        0
    }
}

/// `image` is the dot picture.
pub open spec fn shows_dot(image: Image) -> bool {
    forall|row: int, col: int|
        in_grid(row, col) ==> #[trigger] image[row][col] == glyph_level(dot_lit(row, col))
}

/// `image` is the exclamation picture.
pub open spec fn shows_exclamation(image: Image) -> bool {
    forall|row: int, col: int|
        in_grid(row, col) ==> #[trigger] image[row][col] == glyph_level(
            exclamation_lit(row, col),
        )
}

/// Draws a single dot in the centre of the grid: the picture of a board that
/// is not falling. Every cell of `image` is written.
pub fn display_a_single_dot(image: &mut Image)
    ensures
        shows_dot(*final(image)),
        levels_in_range(*final(image)),
        forall|row: int, col: int|
            in_grid(row, col) ==> (#[trigger] (*final(image))[row][col] == MAX_LEVEL <==> dot_lit(
                row,
                col,
            )),
{
    let mut row: usize = 0;
    while row < SIDE
        invariant
            row <= SIDE,
            forall|r: int, c: int|
                0 <= r < row && 0 <= c < SIDE ==> (*image)[r][c] == glyph_level(dot_lit(r, c)),
        decreases SIDE - row,
    {
        let mut col: usize = 0;
        while col < SIDE
            invariant
                row < SIDE,
                col <= SIDE,
                forall|r: int, c: int|
                    0 <= r < row && 0 <= c < SIDE ==> (*image)[r][c] == glyph_level(dot_lit(r, c)),
                forall|c: int|
                    0 <= c < col ==> (*image)[row as int][c] == glyph_level(
                        dot_lit(row as int, c),
                    ),
            decreases SIDE - col,
        {
            image[row][col] = if row == CENTRE && col == CENTRE {
                MAX_LEVEL
            } else {
                0
            };
            col += 1;
        }
        row += 1;
    }
}

/// Draws an exclamation mark down the middle column: the picture of a board
/// that is falling. Every cell of `image` is written.
pub fn show_exclaimation(image: &mut Image)
    ensures
        shows_exclamation(*final(image)),
        levels_in_range(*final(image)),
        forall|row: int, col: int|
            in_grid(row, col) ==> (#[trigger] (*final(image))[row][col] == MAX_LEVEL
                <==> exclamation_lit(row, col)),
{
    let mut row: usize = 0;
    while row < SIDE
        invariant
            row <= SIDE,
            forall|r: int, c: int|
                0 <= r < row && 0 <= c < SIDE ==> (*image)[r][c] == glyph_level(
                    exclamation_lit(r, c),
                ),
        decreases SIDE - row,
    {
        let mut col: usize = 0;
        while col < SIDE
            invariant
                row < SIDE,
                col <= SIDE,
                forall|r: int, c: int|
                    0 <= r < row && 0 <= c < SIDE ==> (*image)[r][c] == glyph_level(
                        exclamation_lit(r, c),
                    ),
                forall|c: int|
                    0 <= c < col ==> (*image)[row as int][c] == glyph_level(
                        exclamation_lit(row as int, c),
                    ),
            decreases SIDE - col,
        {
            image[row][col] = if col == CENTRE && row != GAP_ROW {
                MAX_LEVEL
            } else {
                0
            };
            col += 1;
        }
        row += 1;
    }
}

} // verus!
