//! Quantisation of concentration levels into display symbols, and the
//! bordered text block of a whole field.

use vstd::prelude::*;
use crate::grid::{get_index, index_of};

verus! {

/// The display symbols, from emptiest to fullest.
pub open spec fn palette() -> Seq<char> {
    seq![' ', '.', ':', ';', '=', '+', 'x', 'X', '%', '$']
}

/// The number of display symbols.
pub const PALETTE_LEN: usize = 10;

/// A level clamped into the palette's index range.
pub open spec fn clamp_level(level: int) -> int {
    if level < 0 {
        0
    } else if level > 9 {
        9
    } else {
        level
    }
}

/// The symbol that shows a level: out-of-range levels saturate at the
/// palette's ends.
pub open spec fn symbol_of(level: int) -> char {
    palette()[clamp_level(level)]
}

/// The symbol for a rounded, scaled concentration level; levels below zero
/// give the first symbol and levels above nine the last.
pub fn symbol_for_level(level: i64) -> (r: char)
    ensures
        r == symbol_of(level as int),
{
    let clamped: i64 = if level < 0 {
        0
    } else if level > 9 {
        9
    } else {
        level
    };
    let r = match clamped {
        0 => ' ',
        1 => '.',
        2 => ':',
        3 => ';',
        4 => '=',
        5 => '+',
        6 => 'x',
        7 => 'X',
        8 => '%',
        _ => '$',
    };
    assert(palette()[clamped as int] == r);
    r
}

/// Relies on String::push: the character is appended at the end.
#[verifier::external_body]
fn push_char(s: &mut String, c: char)
    ensures
        final(s)@ == old(s)@.push(c),
{
    s.push(c)
}

/// A border line: `width` underscores and a line break.
pub open spec fn border_text(width: int) -> Seq<char> {
    Seq::new(width as nat, |i: int| '_').push('\n')
}

/// Row `y` of the field: one symbol per cell, then a line break.
pub open spec fn row_text(levels: Seq<i64>, y: int, width: int) -> Seq<char> {
    Seq::new(width as nat, |x: int| symbol_of(levels[index_of(x, y, width)] as int)).push('\n')
}

/// The first `rows` rows of the field, top to bottom.
pub open spec fn rows_text(levels: Seq<i64>, width: int, rows: nat) -> Seq<char>
    decreases rows,
{
    if rows == 0 {
        Seq::empty()
    } else {
        rows_text(levels, width, (rows - 1) as nat) + row_text(levels, rows - 1, width)
    }
}

/// The whole text block: a border, every row, and a border again.
pub open spec fn pattern_text(levels: Seq<i64>, width: int, height: nat) -> Seq<char> {
    border_text(width) + rows_text(levels, width, height) + border_text(width)
}

fn push_border(out: &mut String, width: usize)
    ensures
        final(out)@ == old(out)@ + border_text(width as int),
{
    let ghost start = out@;
    let mut i: usize = 0;
    while i < width
        invariant
            i <= width,
            out@ == start + Seq::new(i as nat, |k: int| '_'),
        decreases width - i,
    {
        push_char(out, '_');
        assert(Seq::new((i + 1) as nat, |k: int| '_') =~= Seq::new(i as nat, |k: int| '_').push('_'));
        i = i + 1;
    }
    push_char(out, '\n');
    assert(out@ =~= start + border_text(width as int));
}

fn push_row(out: &mut String, levels: &Vec<i64>, y: usize, width: usize, height: usize)
    requires
        0 < width,
        y < height,
        width * height <= usize::MAX,
        levels@.len() == width * height,
    ensures
        final(out)@ == old(out)@ + row_text(levels@, y as int, width as int),
{
    let ghost start = out@;
    let ghost f = |x: int| symbol_of(levels@[index_of(x, y as int, width as int)] as int);
    let mut x: usize = 0;
    while x < width
        invariant
            x <= width,
            0 < width,
            y < height,
            width * height <= usize::MAX,
            levels@.len() == width * height,
            f == (|x: int| symbol_of(levels@[index_of(x, y as int, width as int)] as int)),
            out@ == start + Seq::new(x as nat, f),
        decreases width - x,
    {
        proof {
            assert(y * width + x < width * height) by (nonlinear_arith)
                requires
                    x < width,
                    y < height,
            ;
        }
        let i = get_index(x, y, width);
        push_char(out, symbol_for_level(levels[i]));
        assert(Seq::new((x + 1) as nat, f) =~= Seq::new(x as nat, f).push(f(x as int)));
        x = x + 1;
    }
    push_char(out, '\n');
    assert(out@ =~= start + row_text(levels@, y as int, width as int));
}

/// The field as a text block: a border of `width` underscores, then each row
/// (row-major, top to bottom) as one symbol per cell and a line break, then
/// the same border again.
pub fn draw_pattern(width: usize, height: usize, levels: &Vec<i64>) -> (r: String)
    requires
        0 < width,
        width * height <= usize::MAX,
        levels@.len() == width * height,
    ensures
        r@ == pattern_text(levels@, width as int, height as nat),
{
    let mut out = String::new();
    push_border(&mut out, width);
    let mut y: usize = 0;
    while y < height
        invariant
            y <= height,
            0 < width,
            width * height <= usize::MAX,
            levels@.len() == width * height,
            out@ == border_text(width as int) + rows_text(levels@, width as int, y as nat),
        decreases height - y,
    {
        push_row(&mut out, levels, y, width, height);
        assert(rows_text(levels@, width as int, (y + 1) as nat) == rows_text(levels@, width as int, y as nat) + row_text(levels@, y as int, width as int));
        y = y + 1;
    }
    push_border(&mut out, width);
    out
}

} // verus!
