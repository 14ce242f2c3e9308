use fall_alarm::display::{DriveLines, Multiplexer, SCAN_TICKS, SUBFRAMES, TICK_US};
use fall_alarm::image::{display_a_single_dot, show_exclaimation, Image, MAX_LEVEL, SIDE};

/// Runs one full scan and counts, for each cell, the ticks that light it.
fn lit_ticks_per_cell(display: &mut Multiplexer) -> [[u32; 5]; 5] {
    let mut lit = [[0u32; 5]; 5];
    for _ in 0..SCAN_TICKS {
        let lines = display.handle_tick();
        for col in 0..SIDE {
            if lines.columns[col] {
                lit[lines.row][col] += 1;
            }
        }
    }
    lit
}

/// The pattern that `image` gives in sub-frame `phase` of row `row`.
fn pattern(image: &Image, row: usize, phase: u8) -> DriveLines {
    let mut columns = [false; 5];
    for col in 0..SIDE {
        columns[col] = image[row][col] > phase;
    }
    DriveLines { row, columns }
}

#[test]
fn new_display_is_blank_and_rests_on_the_last_sub_frame() {
    let mut display = Multiplexer::new();
    assert_eq!(display.image(), [[0u8; 5]; 5]);
    assert_eq!(display.cursor(), (4, 8));
    for _ in 0..SCAN_TICKS {
        let lines = display.handle_tick();
        assert_eq!(lines.columns, [false; 5]);
    }
}

#[test]
fn first_tick_selects_first_sub_frame_of_first_row() {
    let mut display = Multiplexer::new();
    let lines = display.handle_tick();
    assert_eq!(lines.row, 0);
    assert_eq!(display.cursor(), (0, 0));
}

#[test]
fn scan_walks_each_row_window_in_order() {
    let mut display = Multiplexer::new();
    for row in 0..SIDE {
        for phase in 0..SUBFRAMES {
            let lines = display.handle_tick();
            assert_eq!(lines.row, row);
            assert_eq!(display.cursor(), (row, phase));
        }
    }
    let lines = display.handle_tick();
    assert_eq!(lines.row, 0);
    assert_eq!(display.cursor(), (0, 0));
}

#[test]
fn full_scan_brings_the_cursor_back() {
    let mut display = Multiplexer::new();
    for _ in 0..7 {
        display.handle_tick();
    }
    let before = display.cursor();
    for _ in 0..SCAN_TICKS {
        display.handle_tick();
    }
    assert_eq!(display.cursor(), before);
    assert_eq!(SCAN_TICKS, SIDE * SUBFRAMES as usize);
}

#[test]
fn on_duration_equals_level_for_every_level() {
    let image: Image = [
        [0, 1, 2, 3, 4],
        [5, 6, 7, 8, 9],
        [9, 8, 7, 6, 5],
        [4, 3, 2, 1, 0],
        [0, 9, 0, 9, 0],
    ];
    let mut display = Multiplexer::new();
    display.show(&image);
    let lit = lit_ticks_per_cell(&mut display);
    for row in 0..SIDE {
        for col in 0..SIDE {
            assert_eq!(lit[row][col], u32::from(image[row][col]));
        }
    }
}

#[test]
fn on_duration_never_shrinks_as_level_grows() {
    let mut previous = 0;
    for level in 0..=MAX_LEVEL {
        let mut display = Multiplexer::new();
        display.show(&[[level; 5]; 5]);
        let lit = lit_ticks_per_cell(&mut display);
        assert!(lit[2][2] >= previous);
        previous = lit[2][2];
    }
    assert_eq!(previous, u32::from(SUBFRAMES));
}

#[test]
fn level_zero_is_never_lit_and_top_level_always() {
    let mut image: Image = [[0; 5]; 5];
    image[1][3] = MAX_LEVEL;
    let mut display = Multiplexer::new();
    display.show(&image);
    for _ in 0..SCAN_TICKS {
        let lines = display.handle_tick();
        for col in 0..SIDE {
            let expected = lines.row == 1 && col == 3;
            assert_eq!(lines.columns[col], expected);
        }
    }
}

#[test]
fn on_duration_is_the_same_wherever_the_scan_starts() {
    let image: Image = [
        [0, 1, 2, 3, 4],
        [5, 6, 7, 8, 9],
        [9, 8, 7, 6, 5],
        [4, 3, 2, 1, 0],
        [0, 9, 0, 9, 0],
    ];
    for offset in 0..SCAN_TICKS {
        let mut display = Multiplexer::new();
        display.show(&image);
        for _ in 0..offset {
            display.handle_tick();
        }
        let lit = lit_ticks_per_cell(&mut display);
        for row in 0..SIDE {
            for col in 0..SIDE {
                assert_eq!(lit[row][col], u32::from(image[row][col]));
            }
        }
    }
}

#[test]
fn level_above_the_top_is_shown_like_the_top() {
    let mut display = Multiplexer::new();
    display.show(&[[200; 5]; 5]);
    let lit = lit_ticks_per_cell(&mut display);
    assert_eq!(lit, [[9; 5]; 5]);
}

#[test]
fn tick_yields_exact_pattern_of_the_sub_frame() {
    let image: Image = [
        [0, 1, 2, 3, 4],
        [5, 6, 7, 8, 9],
        [9, 8, 7, 6, 5],
        [4, 3, 2, 1, 0],
        [0, 9, 0, 9, 0],
    ];
    let mut display = Multiplexer::new();
    display.show(&image);
    let first = display.handle_tick();
    assert_eq!(first, DriveLines { row: 0, columns: [false, true, true, true, true] });
    let second = display.handle_tick();
    assert_eq!(second, DriveLines { row: 0, columns: [false, false, true, true, true] });
    for _ in 2..9 {
        display.handle_tick();
    }
    let tenth = display.handle_tick();
    assert_eq!(tenth, DriveLines { row: 1, columns: [true; 5] });
}

#[test]
fn show_replaces_the_picture_and_keeps_the_cursor() {
    let mut display = Multiplexer::new();
    for _ in 0..13 {
        display.handle_tick();
    }
    let cursor = display.cursor();
    let mut image: Image = [[0; 5]; 5];
    show_exclaimation(&mut image);
    display.show(&image);
    assert_eq!(display.cursor(), cursor);
    assert_eq!(display.image(), image);
}

#[test]
fn show_takes_a_snapshot_of_the_buffer() {
    let mut display = Multiplexer::new();
    let mut image: Image = [[0; 5]; 5];
    display_a_single_dot(&mut image);
    display.show(&image);
    show_exclaimation(&mut image);
    let mut dot: Image = [[0; 5]; 5];
    display_a_single_dot(&mut dot);
    assert_eq!(display.image(), dot);
}

#[test]
fn tick_leaves_the_picture_alone() {
    let mut display = Multiplexer::new();
    let mut image: Image = [[0; 5]; 5];
    show_exclaimation(&mut image);
    display.show(&image);
    for _ in 0..100 {
        display.handle_tick();
        assert_eq!(display.image(), image);
    }
}

#[test]
fn interleaved_ticks_render_one_whole_picture_each() {
    let mut dot: Image = [[0; 5]; 5];
    display_a_single_dot(&mut dot);
    let mut mark: Image = [[0; 5]; 5];
    show_exclaimation(&mut mark);
    let grey: Image = [
        [0, 1, 2, 3, 4],
        [5, 6, 7, 8, 9],
        [9, 8, 7, 6, 5],
        [4, 3, 2, 1, 0],
        [0, 9, 0, 9, 0],
    ];
    let pictures = [dot, mark, grey];
    let mut display = Multiplexer::new();
    let mut latest: Image = [[0; 5]; 5];
    // A fixed interleaving: before tick number `n`, a picture is handed over
    // whenever `n` is a multiple of 2, 3 or 7, so that swaps fall on every
    // part of a row's window.
    for n in 0..500usize {
        if n % 2 == 0 || n % 3 == 0 || n % 7 == 0 {
            latest = pictures[(n / 2 + n / 3 + n / 7) % 3];
            display.show(&latest);
        }
        let lines = display.handle_tick();
        let (row, phase) = display.cursor();
        assert_eq!(lines, pattern(&latest, row, phase));
    }
}

#[test]
fn scan_is_faster_than_sixty_hertz() {
    let scan_us = SCAN_TICKS as u32 * TICK_US;
    assert_eq!(scan_us, 14_985);
    assert!(scan_us * 60 <= 1_000_000);
}
