use vstd::prelude::*;
use crate::buffer::{
    all_levels_valid, all_off, column_brightness, column_spec, is_grid, shifted, valid_level,
    BrightnessBuffer,
};
use crate::cursor::{current_width, cursor_next, cursor_wf, start_cursor, Cursor, TickDivider};
use crate::glyph::{glyph_columns, glyph_of, glyph_widths, spacing_columns};

verus! {

/// Clock ticks per scroll step on the device.
pub const TICKS_PER_STEP: u8 = 19;

/// The glyph column that the next scroll step reveals: blank in a gap, else
/// the cursor's column of the current character's glyph.
pub open spec fn next_mask(msg: Seq<char>, c: Cursor) -> u8 {
    if c.spacing > 0 {
        0
    } else {
        glyph_of(msg[c.char_ix as int])[c.col_ix as int]
    }
}

/// Shifting a column of valid levels into a grid of valid levels keeps every
/// level valid.
pub proof fn lemma_shift_keeps_levels(g: Seq<Seq<u8>>, col: Seq<u8>)
    requires
        is_grid(g),
        all_levels_valid(g),
        col.len() == 5,
        forall|r: int| 0 <= r < 5 ==> valid_level(#[trigger] col[r]),
    ensures
        is_grid(shifted(g, col)),
        all_levels_valid(shifted(g, col)),
{
    let s = shifted(g, col);
    assert forall|r: int, c: int| 0 <= r < 5 && 0 <= c < 5 implies valid_level(#[trigger] s[r][c]) by {
        if c < 4 {
            assert(s[r][c] == g[r][c + 1]);
        }
    }
}

/// The message scrolled by the device.
pub open spec fn default_message_spec() -> Seq<char> {
    seq![
        's', 'o', 'f', 't', 'w', 'a', 'r', 'e', '9', '1', '1', '9', '.', 't', 'e', 'c', 'h', 'n',
        'o', 'l', 'o', 'g', 'y',
    ]
}

/// The message scrolled by the device.
pub fn default_message() -> (m: Vec<char>)
    ensures
        m@ == default_message_spec(),
{
    vec![
        's', 'o', 'f', 't', 'w', 'a', 'r', 'e', '9', '1', '1', '9', '.', 't', 'e', 'c', 'h', 'n',
        'o', 'l', 'o', 'g', 'y',
    ]
}

/// The animation state: the message, the tick divider, the scroll cursor and
/// the brightness buffer shown on the matrix.
pub struct ScrollEngine {
    message: Vec<char>,
    divider: TickDivider,
    cursor: Cursor,
    buffer: BrightnessBuffer,
}

impl ScrollEngine {
    /// The scrolled message.
    pub closed spec fn msg(&self) -> Seq<char> {
        self.message@
    }

    /// The tick divider that gates scroll steps.
    pub closed spec fn divider_state(&self) -> TickDivider {
        self.divider
    }

    /// The scroll position.
    pub closed spec fn pos(&self) -> Cursor {
        self.cursor
    }

    /// The brightness buffer, row by row.
    pub closed spec fn frame(&self) -> Seq<Seq<u8>> {
        self.buffer@
    }

    /// A non-empty message, a well-formed divider, a cursor within the
    /// message, and valid levels in every cell.
    pub open spec fn wf(&self) -> bool {
        &&& 0 < self.msg().len()
        &&& self.divider_state().wf()
        &&& cursor_wf(self.pos(), glyph_widths(self.msg()))
        &&& is_grid(self.frame())
        &&& all_levels_valid(self.frame())
    }

    /// An engine at the start of `message`, with a blank buffer, scrolling
    /// once every `threshold` ticks.
    pub fn new(message: Vec<char>, threshold: u8) -> (e: ScrollEngine)
        requires
            message@.len() > 0,
        ensures
            e.wf(),
            e.msg() == message@,
            e.pos() == start_cursor(),
            all_off(e.frame()),
            e.divider_state().count() == 0,
            e.divider_state().threshold() == threshold,
    {
        let buffer = BrightnessBuffer::blank();
        ScrollEngine {
            message,
            divider: TickDivider::new(threshold),
            cursor: Cursor::start(),
            buffer,
        }
    }

    /// The engine of the device: the default message, one step every
    /// `TICKS_PER_STEP` ticks.
    pub fn standard() -> (e: ScrollEngine)
        ensures
            e.wf(),
            e.msg() == default_message_spec(),
            e.pos() == start_cursor(),
            all_off(e.frame()),
            e.divider_state().count() == 0,
            e.divider_state().threshold() == TICKS_PER_STEP,
    {
        ScrollEngine::new(default_message(), TICKS_PER_STEP)
    }

    /// Counts one clock tick; true when a scroll step is due.
    pub fn tick(&mut self) -> (due: bool)
        requires
            old(self).wf(),
        ensures
            final(self).wf(),
            due == (old(self).divider_state().count() + 1 >= old(self).divider_state().threshold()),
            final(self).divider_state().threshold() == old(self).divider_state().threshold(),
            final(self).divider_state().count() == if due {
                0
            } else {
                (old(self).divider_state().count() + 1) as u8
            },
            final(self).msg() == old(self).msg(),
            final(self).pos() == old(self).pos(),
            final(self).frame() == old(self).frame(),
    {
        self.divider.tick()
    }

    /// The glyph that the cursor stands in: the blank spacing glyph in a gap,
    /// else the current character's glyph.
    fn current_glyph(&self) -> (g: &'static [u8])
        requires
            self.wf(),
        ensures
            g@ == if self.pos().spacing > 0 {
                seq![0u8]
            } else {
                glyph_of(self.msg()[self.pos().char_ix as int])
            },
            g@.len() == current_width(self.pos(), glyph_widths(self.msg())),
            self.pos().col_ix < g@.len(),
            g@.len() <= 5,
    {
        if self.cursor.in_gap() {
            spacing_columns()
        } else {
            glyph_columns(self.message[self.cursor.char_ix])
        }
    }

    /// The glyph column that the next scroll step reveals.
    pub fn next_column(&self) -> (mask: u8)
        requires
            self.wf(),
        ensures
            mask == next_mask(self.msg(), self.pos()),
    {
        let g = self.current_glyph();
        g[self.cursor.col_ix]
    }

    /// One scroll step: shifts the buffer left, reveals the next glyph column
    /// at the right edge, row `r` jittered by `draws[r]` when lit, and moves
    /// the cursor on.
    pub fn scroll_step(&mut self, draws: &[u8; 5])
        requires
            old(self).wf(),
        ensures
            final(self).wf(),
            final(self).frame() == shifted(
                old(self).frame(),
                column_spec(next_mask(old(self).msg(), old(self).pos()), draws@),
            ),
            final(self).pos() == cursor_next(old(self).pos(), glyph_widths(old(self).msg())),
            final(self).msg() == old(self).msg(),
            final(self).divider_state() == old(self).divider_state(),
    {
        let g = self.current_glyph();
        let width = g.len();
        let mask = g[self.cursor.col_ix];
        let col = column_brightness(mask, draws);
        proof {
            lemma_shift_keeps_levels(self.buffer@, col@);
        }
        self.buffer.shift_in(&col);
        self.cursor.advance(width, self.message.len());
    }

    /// The current scroll position.
    pub fn cursor(&self) -> (c: Cursor)
        ensures
            c == self.pos(),
    {
        self.cursor
    }

    /// The brightness buffer as last published.
    pub fn buffer(&self) -> (b: BrightnessBuffer)
        ensures
            b@ == self.frame(),
    {
        self.buffer
    }

    /// The scrolled message.
    pub fn message(&self) -> (m: &Vec<char>)
        ensures
            m@ == self.msg(),
    {
        &self.message
    }
}

} // verus!
