use scroll_matrix::buffer::{column_brightness, is_row_lit, lit_brightness, BrightnessBuffer};
use scroll_matrix::cursor::{Cursor, TickDivider, CHAR_GAP, CYCLE_GAP};
use scroll_matrix::engine::{default_message, ScrollEngine, TICKS_PER_STEP};
use scroll_matrix::glyph::{glyph_column, glyph_width};
use scroll_matrix::registry::{PeripheralRegistry, Slot};

const GLYPH_A: [u8; 5] = [0x1e, 0x9, 0x9, 0x9, 0x1e];
const GLYPH_B: [u8; 5] = [0x1f, 0x15, 0x15, 0x15, 0xa];

fn chars(s: &str) -> Vec<char> {
    s.chars().collect()
}

fn newest_column(b: &BrightnessBuffer) -> [u8; 5] {
    [b.level(0, 4), b.level(1, 4), b.level(2, 4), b.level(3, 4), b.level(4, 4)]
}

fn column_for(mask: u8, lit: u8) -> [u8; 5] {
    let mut col = [0u8; 5];
    for r in 0..5 {
        if mask & (1 << r) != 0 {
            col[r] = lit;
        }
    }
    col
}

fn all_cells_valid(b: &BrightnessBuffer) -> bool {
    (0..5).all(|r| (0..5).all(|c| {
        let v = b.level(r, c);
        v == 0 || (5..=9).contains(&v)
    }))
}

#[test]
fn jitter_maps_low_residues_to_five() {
    for b in [0u8, 1, 2, 3, 4, 5, 10, 15, 25, 255] {
        assert_eq!(lit_brightness(b), 5, "byte {}", b);
    }
    assert_eq!(lit_brightness(6), 6);
    assert_eq!(lit_brightness(7), 7);
    assert_eq!(lit_brightness(18), 8);
    assert_eq!(lit_brightness(249), 9);
}

#[test]
fn jitter_distribution_over_whole_residue_blocks() {
    let mut counts = [0u32; 10];
    for b in 0u8..250 {
        let v = lit_brightness(b);
        assert!((5..=9).contains(&v));
        counts[v as usize] += 1;
    }
    assert_eq!(counts[5], 150);
    for v in 6..10 {
        assert_eq!(counts[v], 25);
    }
    assert_eq!(counts[0..5].iter().sum::<u32>(), 0);
}

#[test]
fn column_brightness_lights_only_set_bits() {
    let col = column_brightness(0b10101, &[6, 7, 8, 9, 13]);
    assert_eq!(col, [6, 0, 8, 0, 5]);
    assert_eq!(column_brightness(0, &[9, 9, 9, 9, 9]), [0; 5]);
    assert_eq!(column_brightness(0x1f, &[0, 1, 2, 3, 4]), [5; 5]);
}

#[test]
fn row_lit_reads_one_bit_per_row() {
    let lit: Vec<bool> = (0..5).map(|r| is_row_lit(0b01101, r)).collect();
    assert_eq!(lit, vec![true, false, true, true, false]);
    assert!(!is_row_lit(0b100000, 4));
}

#[test]
fn shift_moves_columns_left() {
    let mut b = BrightnessBuffer::blank();
    b.shift_in(&[5, 6, 7, 8, 9]);
    b.shift_in(&[9, 0, 0, 0, 5]);
    assert_eq!(b.rows[0], [0, 0, 0, 5, 9]);
    assert_eq!(b.rows[2], [0, 0, 0, 7, 0]);
    assert_eq!(b.rows[4], [0, 0, 0, 9, 5]);
}

#[test]
fn five_blank_shifts_clear_the_buffer() {
    let mut b = BrightnessBuffer { rows: [[9, 5, 6, 7, 8]; 5] };
    for k in 0..5 {
        assert_ne!(b.rows, [[0u8; 5]; 5], "cleared after only {} shifts", k);
        b.shift_in(&[0; 5]);
    }
    assert_eq!(b.rows, [[0u8; 5]; 5]);
}

#[test]
fn glyphs_come_from_the_font() {
    for (i, v) in GLYPH_A.iter().enumerate() {
        assert_eq!(glyph_column('A', i), Some(*v));
        assert_eq!(glyph_column('a', i), Some(*v));
    }
    for (i, v) in GLYPH_B.iter().enumerate() {
        assert_eq!(glyph_column('B', i), Some(*v));
    }
    assert_eq!(glyph_column('A', 5), None);
    assert_eq!(glyph_width('A'), 5);
    assert_eq!(glyph_width('I'), 1);
    assert_eq!(glyph_width('9'), 4);
    assert_eq!(glyph_width('.'), 1);
    assert_eq!(glyph_column('.', 0), Some(0x10));
}

#[test]
fn cursor_walks_glyph_then_gap() {
    let mut c = Cursor::start();
    for k in 1..5 {
        c.advance(5, 3);
        assert_eq!(c, Cursor { char_ix: 0, col_ix: k, spacing: 0 });
    }
    c.advance(5, 3);
    assert_eq!(c, Cursor { char_ix: 1, col_ix: 0, spacing: CHAR_GAP });
    c.advance(1, 3);
    assert_eq!(c, Cursor { char_ix: 1, col_ix: 0, spacing: 0 });
    let mut last = Cursor { char_ix: 2, col_ix: 0, spacing: 0 };
    last.advance(1, 3);
    assert_eq!(last, Cursor { char_ix: 0, col_ix: 0, spacing: CYCLE_GAP });
}

#[test]
fn divider_lets_every_nineteenth_tick_through() {
    let mut d = TickDivider::new(TICKS_PER_STEP);
    for round in 0..3 {
        for k in 0..18 {
            assert!(!d.tick(), "round {} tick {}", round, k);
        }
        assert!(d.tick());
    }
    let mut every = TickDivider::new(1);
    for _ in 0..5 {
        assert!(every.tick());
    }
}

#[test]
fn engine_ticks_below_threshold_change_nothing() {
    let mut e = ScrollEngine::standard();
    for _ in 0..18 {
        assert!(!e.tick());
    }
    assert_eq!(e.cursor(), Cursor::start());
    assert_eq!(e.buffer().rows, [[0u8; 5]; 5]);
    assert!(e.tick());
}

#[test]
fn every_step_keeps_levels_valid() {
    let mut e = ScrollEngine::standard();
    let mut seed: u32 = 12345;
    for _ in 0..200 {
        let mut draws = [0u8; 5];
        for d in draws.iter_mut() {
            seed = seed.wrapping_mul(1103515245).wrapping_add(12345);
            *d = (seed >> 16) as u8;
        }
        e.scroll_step(&draws);
        assert_eq!(e.buffer().rows.len(), 5);
        assert!(all_cells_valid(&e.buffer()));
    }
}

#[test]
fn full_pass_returns_to_start() {
    let mut e = ScrollEngine::new(chars("AB"), 1);
    let steps = 5 * 2 + (2 - 1) * 1 + 5;
    for k in 0..steps {
        if k > 0 {
            assert_ne!(e.cursor(), Cursor::start(), "back at start after {} steps", k);
        }
        e.scroll_step(&[0; 5]);
    }
    assert_eq!(e.cursor(), Cursor::start());
}

#[test]
fn full_pass_of_default_message_returns_to_start() {
    let msg = default_message();
    let width_sum: usize = msg.iter().map(|c| glyph_width(*c)).sum();
    let steps = width_sum + (msg.len() - 1) + 5;
    let mut e = ScrollEngine::new(msg, 1);
    for _ in 0..steps {
        e.scroll_step(&[3; 5]);
    }
    assert_eq!(e.cursor(), Cursor::start());
    for _ in 0..steps {
        e.scroll_step(&[3; 5]);
    }
    assert_eq!(e.cursor(), Cursor::start());
}

#[test]
fn gap_counts_down_without_advancing_character() {
    let mut e = ScrollEngine::new(chars("ABC"), 1);
    for _ in 0..5 {
        e.scroll_step(&[0; 5]);
    }
    assert_eq!(e.cursor().spacing, 1);
    let ix = e.cursor().char_ix;
    e.scroll_step(&[0; 5]);
    assert_eq!(e.cursor(), Cursor { char_ix: ix, col_ix: 0, spacing: 0 });
    for _ in 0..11 {
        e.scroll_step(&[0; 5]);
    }
    assert_eq!(e.cursor(), Cursor { char_ix: 0, col_ix: 0, spacing: 5 });
    for expected in (0..5).rev() {
        e.scroll_step(&[0; 5]);
        assert_eq!(e.cursor(), Cursor { char_ix: 0, col_ix: 0, spacing: expected });
    }
}

#[test]
fn scrolling_ab_reveals_exact_column_sequence() {
    let mut e = ScrollEngine::new(chars("AB"), 1);
    let mut expected: Vec<u8> = Vec::new();
    expected.extend_from_slice(&GLYPH_A);
    expected.push(0);
    expected.extend_from_slice(&GLYPH_B);
    expected.extend_from_slice(&[0; 5]);
    expected.extend_from_slice(&GLYPH_A);
    for (k, mask) in expected.iter().enumerate() {
        assert!(e.tick());
        assert_eq!(e.next_column(), *mask, "step {}", k);
        e.scroll_step(&[0; 5]);
        assert_eq!(newest_column(&e.buffer()), column_for(*mask, 5), "step {}", k);
    }
}

#[test]
fn jittered_levels_land_in_lit_rows() {
    let mut e = ScrollEngine::new(chars("B"), 1);
    e.scroll_step(&[6, 7, 8, 9, 0]);
    assert_eq!(newest_column(&e.buffer()), [6, 7, 8, 9, 5]);
    e.scroll_step(&[6, 7, 8, 9, 0]);
    assert_eq!(newest_column(&e.buffer()), [6, 0, 8, 0, 5]);
    assert_eq!(e.buffer().rows[0], [0, 0, 0, 6, 6]);
}

#[test]
fn refresh_sees_whole_snapshots_only() {
    let mut reg: PeripheralRegistry<BrightnessBuffer, (), ()> =
        PeripheralRegistry::with_handles(BrightnessBuffer::blank(), (), ());
    let mut e = ScrollEngine::new(chars("AB"), 1);
    let mut seen_prior = e.buffer();
    for k in 0..40u8 {
        let prior = *reg.display.get_mut();
        e.scroll_step(&[k, k.wrapping_mul(7), k.wrapping_add(3), 200, k / 2]);
        let fresh = e.buffer();
        // A refresh before the publish sees the prior snapshot whole.
        assert_eq!(reg.display.get_mut().rows, prior.rows);
        *reg.display.get_mut() = fresh;
        // A refresh after it sees the new snapshot whole.
        let observed = *reg.display.get_mut();
        assert_eq!(observed.rows, fresh.rows);
        for r in 0..5 {
            assert!(observed.rows[r] == fresh.rows[r] || observed.rows[r] == seen_prior.rows[r]);
        }
        seen_prior = fresh;
    }
}

#[test]
fn slot_installs_once_and_takes_back() {
    let mut s: Slot<u32> = Slot::empty();
    assert!(!s.is_installed());
    assert_eq!(s.install(7), Ok(()));
    assert_eq!(s.install(8), Err(8));
    *s.get_mut() += 1;
    assert_eq!(s.take(), Some(8));
    assert!(!s.is_installed());
    assert_eq!(s.take(), None);
    assert_eq!(s.install(9), Ok(()));
    assert!(s.is_installed());
}

#[test]
fn registry_starts_empty() {
    let reg: PeripheralRegistry<u8, u16, u32> = PeripheralRegistry::new();
    assert!(!reg.display.is_installed());
    assert!(!reg.clock.is_installed());
    assert!(!reg.rng.is_installed());
}
