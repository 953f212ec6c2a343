use vstd::prelude::*;

verus! {

/// Blank columns between two characters of the message.
pub const CHAR_GAP: u8 = 1;

/// Blank columns between the end of the message and its repeat.
pub const CYCLE_GAP: u8 = 5;

/// Position of the scroll within the message.
#[derive(Clone, Copy, Debug, PartialEq, Eq, Structural)]
pub struct Cursor {
    /// Index of the current character in the message.
    pub char_ix: usize,
    /// Index of the next column to reveal within the current glyph.
    pub col_ix: usize,
    /// Blank columns still to reveal before the message resumes; 0 outside a gap.
    pub spacing: u8,
}

/// The cursor at the start of the message.
pub open spec fn start_cursor() -> Cursor {
    Cursor { char_ix: 0, col_ix: 0, spacing: 0 }
}

/// Width of the glyph that the cursor is in: one blank column in a gap, else
/// the width of the current character's glyph, `widths` giving the width of
/// each character of the message.
pub open spec fn current_width(c: Cursor, widths: Seq<nat>) -> nat {
    if c.spacing > 0 {
        1
    } else {
        widths[c.char_ix as int]
    }
}

/// The cursor after revealing one column of a glyph `w` columns wide, in a
/// message of `n` characters.
pub open spec fn advanced(c: Cursor, w: nat, n: nat) -> Cursor {
    if c.col_ix + 1 < w {
        Cursor { char_ix: c.char_ix, col_ix: (c.col_ix + 1) as usize, spacing: c.spacing }
    } else if c.spacing > 0 {
        Cursor { char_ix: c.char_ix, col_ix: 0, spacing: (c.spacing - 1) as u8 }
    } else if c.char_ix + 1 == n {
        Cursor { char_ix: 0, col_ix: 0, spacing: CYCLE_GAP }
    } else {
        Cursor { char_ix: (c.char_ix + 1) as usize, col_ix: 0, spacing: CHAR_GAP }
    }
}

/// The cursor after one scroll step over a message with glyph widths `widths`.
pub open spec fn cursor_next(c: Cursor, widths: Seq<nat>) -> Cursor {
    advanced(c, current_width(c, widths), widths.len())
}

/// The cursor after `k` scroll steps.
pub open spec fn cursor_after(c: Cursor, widths: Seq<nat>, k: nat) -> Cursor
    decreases k,
{
    if k == 0 {
        c
    } else {
        cursor_after(cursor_next(c, widths), widths, (k - 1) as nat)
    }
}

/// A message of glyph widths `widths` that fits in memory, every glyph one to
/// five columns wide.
pub open spec fn widths_valid(widths: Seq<nat>) -> bool {
    &&& 0 < widths.len() <= usize::MAX
    &&& forall|i: int| 0 <= i < widths.len() ==> 1 <= #[trigger] widths[i] <= 5
}

/// A cursor that stands within a message with glyph widths `widths`.
pub open spec fn cursor_wf(c: Cursor, widths: Seq<nat>) -> bool {
    &&& c.char_ix < widths.len()
    &&& c.spacing <= CYCLE_GAP
    &&& c.spacing > 0 ==> c.col_ix == 0
    &&& c.spacing == 0 ==> (c.col_ix == 0 || c.col_ix < widths[c.char_ix as int])
}

/// Sum of the glyph widths from character `i` to the end of the message.
pub open spec fn widths_from(widths: Seq<nat>, i: int) -> nat
    decreases widths.len() - i,
{
    if i < 0 || i >= widths.len() {
        0
    } else {
        widths[i] + widths_from(widths, i + 1)
    }
}

/// Scroll steps in one full pass: every glyph column, one blank column
/// between characters, and the gap before the repeat.
pub open spec fn cycle_len(widths: Seq<nat>) -> nat {
    (widths_from(widths, 0) + (widths.len() - 1) + CYCLE_GAP) as nat
}

/// Where a cursor goes once the last column of character `i` is revealed.
pub open spec fn after_char(widths: Seq<nat>, i: int) -> Cursor {
    if i + 1 == widths.len() {
        Cursor { char_ix: 0, col_ix: 0, spacing: CYCLE_GAP }
    } else {
        Cursor { char_ix: (i + 1) as usize, col_ix: 0, spacing: CHAR_GAP }
    }
}

/// Steps compose: `a` steps then `b` steps are `a + b` steps.
pub proof fn lemma_after_compose(c: Cursor, widths: Seq<nat>, a: nat, b: nat)
    ensures
        cursor_after(c, widths, a + b) == cursor_after(cursor_after(c, widths, a), widths, b),
    decreases a,
{
    if a > 0 {
        lemma_after_compose(cursor_next(c, widths), widths, (a - 1) as nat, b);
        assert((a + b - 1) as nat == (a - 1) as nat + b);
    }
}

/// The cursor walks the rest of character `i`'s glyph, then leaves it.
proof fn lemma_walk_glyph(widths: Seq<nat>, i: usize, m: usize)
    requires
        widths_valid(widths),
        i < widths.len(),
        m < widths[i as int],
    ensures
        cursor_after(
            Cursor { char_ix: i, col_ix: m, spacing: 0 },
            widths,
            (widths[i as int] - m) as nat,
        ) == after_char(widths, i as int),
    decreases widths[i as int] - m,
{
    let c = Cursor { char_ix: i, col_ix: m, spacing: 0 };
    let k = (widths[i as int] - m) as nat;
    assert(cursor_after(c, widths, k) == cursor_after(cursor_next(c, widths), widths, (k - 1) as nat));
    if m + 1 < widths[i as int] {
        lemma_walk_glyph(widths, i, (m + 1) as usize);
    } else {
        assert(cursor_after(after_char(widths, i as int), widths, 0) == after_char(widths, i as int));
    }
}

/// A gap of `s` blank columns takes `s` steps and leaves the character alone.
proof fn lemma_walk_gap(widths: Seq<nat>, j: usize, s: u8)
    ensures
        cursor_after(Cursor { char_ix: j, col_ix: 0, spacing: s }, widths, s as nat) == (Cursor {
            char_ix: j,
            col_ix: 0,
            spacing: 0,
        }),
    decreases s,
{
    if s > 0 {
        lemma_walk_gap(widths, j, (s - 1) as u8);
    }
}

/// From the first column of character `i`, the rest of the pass leads back
/// to the start.
proof fn lemma_walk_rest(widths: Seq<nat>, i: usize)
    requires
        widths_valid(widths),
        i < widths.len(),
    ensures
        cursor_after(
            Cursor { char_ix: i, col_ix: 0, spacing: 0 },
            widths,
            (widths_from(widths, i as int) + (widths.len() - 1 - i) + CYCLE_GAP) as nat,
        ) == start_cursor(),
    decreases widths.len() - i,

{
    let c = Cursor { char_ix: i, col_ix: 0, spacing: 0 };
    let w = widths[i as int];
    lemma_walk_glyph(widths, i, 0);
    if i + 1 == widths.len() {
        assert(widths_from(widths, i + 1) == 0);
        lemma_after_compose(c, widths, w, CYCLE_GAP as nat);
        lemma_walk_gap(widths, 0, CYCLE_GAP);
    } else {
        let rest = (widths_from(widths, i + 1) + (widths.len() - 1 - (i + 1)) + CYCLE_GAP) as nat;
        lemma_walk_rest(widths, (i + 1) as usize);
        lemma_after_compose(c, widths, w, (1 + rest) as nat);
        lemma_after_compose(after_char(widths, i as int), widths, 1, rest);
        lemma_walk_gap(widths, (i + 1) as usize, 1);
        assert(w + (1 + rest) == widths_from(widths, i as int) + (widths.len() - 1 - i)
            + CYCLE_GAP);
    }
}

/// A full pass over the message, `cycle_len(widths)` scroll steps, brings the
/// cursor from the start of the message back to it.
pub proof fn lemma_full_cycle_returns(widths: Seq<nat>)
    requires
        widths_valid(widths),
    ensures
        cursor_after(start_cursor(), widths, cycle_len(widths)) == start_cursor(),
{
    lemma_walk_rest(widths, 0);
}

/// When every glyph is five columns wide, a full pass over `n` characters
/// takes `5 * n + (n - 1) + 5` steps.
pub proof fn lemma_cycle_len_five_wide(widths: Seq<nat>)
    requires
        widths.len() > 0,
        forall|i: int| 0 <= i < widths.len() ==> #[trigger] widths[i] == 5,
    ensures
        cycle_len(widths) == 5 * widths.len() + (widths.len() - 1) + 5,
{
    lemma_widths_from_uniform(widths, 0);
}

proof fn lemma_widths_from_uniform(widths: Seq<nat>, i: int)
    requires
        0 <= i <= widths.len(),
        forall|j: int| 0 <= j < widths.len() ==> #[trigger] widths[j] == 5,
    ensures
        widths_from(widths, i) == 5 * (widths.len() - i),
    decreases widths.len() - i,
{
    if i < widths.len() {
        lemma_widths_from_uniform(widths, i + 1);
    }
}

/// In a gap, each step takes exactly one off the countdown and keeps the
/// character index; at the start of a gap's last step the next one resumes
/// the message.
pub proof fn lemma_gap_counts_down(c: Cursor, widths: Seq<nat>)
    requires
        cursor_wf(c, widths),
        c.spacing > 0,
    ensures
        cursor_next(c, widths).spacing == c.spacing - 1,
        cursor_next(c, widths).char_ix == c.char_ix,
        cursor_next(c, widths).col_ix == 0,
{
}

/// One scroll step keeps the cursor within the message.
pub proof fn lemma_next_keeps_wf(c: Cursor, widths: Seq<nat>)
    requires
        widths_valid(widths),
        cursor_wf(c, widths),
    ensures
        cursor_wf(cursor_next(c, widths), widths),
{
}

impl Cursor {
    /// The cursor at the first column of the first character.
    pub fn start() -> (c: Cursor)
        ensures
            c == start_cursor(),
    {
        Cursor { char_ix: 0, col_ix: 0, spacing: 0 }
    }

    /// Whether the cursor is in a blank gap.
    pub fn in_gap(&self) -> (r: bool)
        ensures
            r == (self.spacing > 0),
    {
        self.spacing > 0
    }

    /// Moves past one revealed column of a glyph `width` columns wide, in a
    /// message of `msg_len` characters.
    pub fn advance(&mut self, width: usize, msg_len: usize)
        requires
            old(self).col_ix < width,
            old(self).char_ix < msg_len,
        ensures
            *final(self) == advanced(*old(self), width as nat, msg_len as nat),
    {
        if self.col_ix + 1 < width {
            self.col_ix = self.col_ix + 1;
        } else if self.spacing > 0 {
            self.col_ix = 0;
            self.spacing = self.spacing - 1;
        } else if self.char_ix + 1 == msg_len {
            self.char_ix = 0;
            self.col_ix = 0;
            self.spacing = CYCLE_GAP;
        } else {
            self.char_ix = self.char_ix + 1;
            self.col_ix = 0;
            self.spacing = CHAR_GAP;
        }
    }
}

/// Counts clock ticks and lets one scroll step through every `threshold`
/// ticks.
#[derive(Clone, Copy, Debug)]
pub struct TickDivider {
    count: u8,
    threshold: u8,
}

impl TickDivider {
    /// Ticks counted since the last scroll step.
    pub closed spec fn count(&self) -> u8 {
        self.count
    }

    /// Ticks per scroll step.
    pub closed spec fn threshold(&self) -> u8 {
        self.threshold
    }

    /// The count stays below the threshold.
    pub closed spec fn wf(&self) -> bool {
        self.count == 0 || self.count < self.threshold
    }

    /// A divider that lets a step through every `threshold` ticks (every tick
    /// for a threshold of 0 or 1).
    pub fn new(threshold: u8) -> (d: TickDivider)
        ensures
            d.wf(),
            d.count() == 0,
            d.threshold() == threshold,
    {
        TickDivider { count: 0, threshold }
    }

    /// Counts one tick; true when this tick is due a scroll step, which
    /// resets the count.
    pub fn tick(&mut self) -> (due: bool)
        requires
            old(self).wf(),
        ensures
            final(self).wf(),
            final(self).threshold() == old(self).threshold(),
            due == (old(self).count() + 1 >= old(self).threshold()),
            final(self).count() == if due { 0 } else { (old(self).count() + 1) as u8 },
    {
        if self.count + 1 < self.threshold {
            self.count = self.count + 1;
            false
        } else {
            self.count = 0;
            true
        }
    }
}

} // verus!
