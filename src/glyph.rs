use vstd::prelude::*;

verus! {

/// The columns of the font's glyph for `c`, left to right; bit `r` of a column
/// lights row `r`.
pub uninterp spec fn glyph_of(c: char) -> Seq<u8>;

/// Width in columns of the font's glyph for each character of `msg`.
pub open spec fn glyph_widths(msg: Seq<char>) -> Seq<nat> {
    msg.map_values(|c: char| glyph_of(c).len())
}

/// Relies on `ug_max::col_def`: a total lookup whose every glyph, for letters,
/// digits, symbols and the fallback for unsupported characters alike, is a
/// static table entry of one to five columns.
#[verifier::external_body]
pub(crate) fn glyph_columns(c: char) -> (r: &'static [u8])
    ensures
        r@ == glyph_of(c),
        1 <= r@.len() <= 5,
{
    ug_max::col_def(c)
}

/// Relies on `ug_max::SPACING`: a single blank column.
#[verifier::external_body]
pub(crate) fn spacing_columns() -> (r: &'static [u8])
    ensures
        r@ == seq![0u8],
{
    &ug_max::SPACING
}

/// Column `col` of the glyph for `c`, if the glyph has that many columns.
pub fn glyph_column(c: char, col: usize) -> (r: Option<u8>)
    ensures
        col < glyph_of(c).len() ==> r == Some(glyph_of(c)[col as int]),
        col >= glyph_of(c).len() ==> r is None,
{
    let g = glyph_columns(c);
    if col < g.len() {
        Some(g[col])
    } else {
        None
    }
}

/// Width in columns of the glyph for `c`.
pub fn glyph_width(c: char) -> (w: usize)
    ensures
        w == glyph_of(c).len(),
        1 <= w <= 5,
{
    glyph_columns(c).len()
}

} // verus!
