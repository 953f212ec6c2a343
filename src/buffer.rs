use vstd::prelude::*;

verus! {

/// Side length of the square LED matrix.
pub const SIDE: usize = 5;

/// Brightness of a lit pixel when the jitter draw lands in the low bucket.
pub const MIN_LIT_LEVEL: u8 = 5;

/// Highest brightness a lit pixel can take.
pub const MAX_LEVEL: u8 = 9;

/// Brightness that a lit pixel takes for a random byte `b`: `b % 10`, with
/// every result up to five raised to five.
pub open spec fn lit_level(b: u8) -> u8 {
    if b % 10 <= 5 {
        5
    } else {
        b % 10
    }
}

/// Whether row `r` is lit in a glyph column (bit `r` of `mask`).
pub open spec fn row_lit(mask: u8, r: int) -> bool {
    (mask >> (r as u8)) & 1u8 == 1u8
}

/// A brightness level that a cell may hold: off, or one of the lit levels.
pub open spec fn valid_level(v: u8) -> bool {
    v == 0 || (MIN_LIT_LEVEL <= v && v <= MAX_LEVEL)
}

/// The column that enters the buffer for glyph column `mask` and the random
/// bytes `draws`: row `r` gets `lit_level(draws[r])` when lit, else 0.
pub open spec fn column_spec(mask: u8, draws: Seq<u8>) -> Seq<u8> {
    Seq::new(5, |r: int| if row_lit(mask, r) { lit_level(draws[r]) } else { 0u8 })
}

/// A 5×5 grid of brightness levels; `rows[r][c]` is row `r` (top to bottom)
/// and column `c` (left to right).
#[derive(Clone, Copy, Debug)]
pub struct BrightnessBuffer {
    pub rows: [[u8; 5]; 5],
}

impl View for BrightnessBuffer {
    type V = Seq<Seq<u8>>;

    open spec fn view(&self) -> Seq<Seq<u8>> {
        Seq::new(5, |r: int| self.rows@[r]@)
    }
}

/// A grid that is exactly 5×5.
pub open spec fn is_grid(g: Seq<Seq<u8>>) -> bool {
    &&& g.len() == 5
    &&& forall|r: int| 0 <= r < 5 ==> (#[trigger] g[r]).len() == 5
}

/// Every cell of the grid holds a valid brightness level.
pub open spec fn all_levels_valid(g: Seq<Seq<u8>>) -> bool {
    forall|r: int, c: int| 0 <= r < 5 && 0 <= c < 5 ==> valid_level(#[trigger] g[r][c])
}

/// Every cell of the grid is off.
pub open spec fn all_off(g: Seq<Seq<u8>>) -> bool {
    forall|r: int, c: int| 0 <= r < 5 && 0 <= c < 5 ==> #[trigger] g[r][c] == 0
}

/// The grid after one shift: columns 1 to 4 move to 0 to 3 and `col` enters
/// as column 4.
pub open spec fn shifted(g: Seq<Seq<u8>>, col: Seq<u8>) -> Seq<Seq<u8>> {
    Seq::new(5, |r: int| Seq::new(5, |c: int| if c < 4 { g[r][c + 1] } else { col[r] }))
}

/// The grid after `k` shifts, each bringing in a blank column.
pub open spec fn shifted_blank(g: Seq<Seq<u8>>, k: nat) -> Seq<Seq<u8>>
    decreases k,
{
    if k == 0 {
        g
    } else {
        shifted(shifted_blank(g, (k - 1) as nat), Seq::new(5, |r: int| 0u8))
    }
}

proof fn lemma_buffer_is_grid(b: BrightnessBuffer)
    ensures
        is_grid(b@),
{
    assert forall|r: int| 0 <= r < 5 implies (#[trigger] b@[r]).len() == 5 by {
        assert(b@[r] == b.rows@[r]@);
    }
}

/// Shifting in five blank columns turns any grid all off.
pub proof fn lemma_five_blank_shifts_clear(g: Seq<Seq<u8>>)
    requires
        is_grid(g),
    ensures
        all_off(shifted_blank(g, 5)),
        is_grid(shifted_blank(g, 5)),
{
    let blank = Seq::new(5, |r: int| 0u8);
    let g1 = shifted_blank(g, 1);
    let g2 = shifted_blank(g, 2);
    let g3 = shifted_blank(g, 3);
    let g4 = shifted_blank(g, 4);
    let g5 = shifted_blank(g, 5);
    assert(g5 == shifted(g4, blank));
    assert(g4 == shifted(g3, blank));
    assert(g3 == shifted(g2, blank));
    assert(g2 == shifted(g1, blank));
    assert(shifted_blank(g, 0) == g);
    assert(g1 == shifted(g, blank));
    assert forall|r: int, c: int| 0 <= r < 5 && 0 <= c < 5 implies #[trigger] g5[r][c] == 0 by {
        if c < 4 {
            assert(g5[r][c] == g4[r][c + 1]);
            if c + 1 < 4 {
                assert(g4[r][c + 1] == g3[r][c + 2]);
                if c + 2 < 4 {
                    assert(g3[r][c + 2] == g2[r][c + 3]);
                    if c + 3 < 4 {
                        assert(g2[r][c + 3] == g1[r][c + 4]);
                    }
                }
            }
        }
    }
}

/// The jitter rule sorts a random byte by its residue modulo 10: the six
/// residues 0 to 5 all give the lowest lit level 5, and each residue from 6 to
/// 9 gives itself, so a lit pixel only ever takes a level from 5 to 9.
pub proof fn lemma_jitter_buckets(b: u8)
    ensures
        MIN_LIT_LEVEL <= lit_level(b) <= MAX_LEVEL,
        lit_level(b) == 5 <==> b % 10 <= 5,
        lit_level(b) > 5 <==> b % 10 > 5,
        b % 10 > 5 ==> lit_level(b) == b % 10,
{
}

/// Brightness of a lit pixel for the random byte `b`.
pub fn lit_brightness(b: u8) -> (r: u8)
    ensures
        r == lit_level(b),
        MIN_LIT_LEVEL <= r <= MAX_LEVEL,
        b % 10 <= 5 ==> r == MIN_LIT_LEVEL,
        b % 10 > 5 ==> r == b % 10,
{
    let d: u8 = b % 10;
    if d <= 5 {
        MIN_LIT_LEVEL
    } else {
        d
    }
}

/// Whether row `r` is lit in glyph column `mask`.
pub fn is_row_lit(mask: u8, r: u8) -> (lit: bool)
    requires
        r < 5,
    ensures
        lit == row_lit(mask, r as int),
{
    (mask >> r) & 1u8 == 1u8
}

/// Brightness levels of the column revealed for glyph column `mask`, where
/// row `r` draws its jitter from `draws[r]` and unlit rows are off.
pub fn column_brightness(mask: u8, draws: &[u8; 5]) -> (col: [u8; 5])
    ensures
        col@ == column_spec(mask, draws@),
        forall|r: int| 0 <= r < 5 ==> valid_level(#[trigger] col@[r]),
{
    let mut col: [u8; 5] = [0u8; 5];
    let mut r: u8 = 0;
    while r < 5
        invariant
            0 <= r <= 5,
            col@.len() == 5,
            forall|i: int| 0 <= i < r ==> col@[i] == column_spec(mask, draws@)[i],
            forall|i: int| r <= i < 5 ==> col@[i] == 0,
        decreases 5 - r,
    {
        if is_row_lit(mask, r) {
            col[r as usize] = lit_brightness(draws[r as usize]);
        }
        r = r + 1;
    }
    assert(col@ =~= column_spec(mask, draws@));
    col
}

fn shift_row(row: [u8; 5], v: u8) -> (r: [u8; 5])
    ensures
        r@ == seq![row@[1], row@[2], row@[3], row@[4], v],
{
    [row[1], row[2], row[3], row[4], v]
}

impl BrightnessBuffer {
    /// An all-off buffer.
    pub fn blank() -> (b: BrightnessBuffer)
        ensures
            all_off(b@),
            is_grid(b@),
    {
        let b = BrightnessBuffer { rows: [[0u8; 5]; 5] };
        proof {
            lemma_buffer_is_grid(b);
        }
        b
    }

    /// Level at row `r`, column `c`.
    pub fn level(&self, r: usize, c: usize) -> (v: u8)
        requires
            r < 5,
            c < 5,
        ensures
            v == self@[r as int][c as int],
    {
        self.rows[r][c]
    }

    /// Moves every column one place left, dropping column 0, and puts `col`
    /// in column 4.
    pub fn shift_in(&mut self, col: &[u8; 5])
        ensures
            final(self)@ == shifted(old(self)@, col@),
    {
        let o = self.rows;
        self.rows = [
            shift_row(o[0], col[0]),
            shift_row(o[1], col[1]),
            shift_row(o[2], col[2]),
            shift_row(o[3], col[3]),
            shift_row(o[4], col[4]),
        ];
        proof {
            let want = shifted(old(self)@, col@);
            assert forall|r: int| 0 <= r < 5 implies #[trigger] self@[r] =~= want[r] by {
                assert(self@[r] == self.rows@[r]@);
                assert(old(self)@[r] == o@[r]@);
            }
            assert(self@ =~= want);
        }
    }
}

} // verus!
