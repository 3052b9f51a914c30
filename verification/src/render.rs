//! The render description: one rectangle and flag per cell, plus the
//! display string, all as a pure projection of the grid state.

use vstd::prelude::*;

verus! {

use crate::geometry::GridGeometry;
use crate::numeric::dec_chars;
use crate::numeric::value_of;

/// An axis-aligned pixel rectangle.
#[derive(Clone, Copy, Debug, PartialEq, Eq, Structural)]
pub struct Rect {
    pub x: u32,
    pub y: u32,
    pub width: u32,
    pub height: u32,
}

/// One cell's drawing order: where its square goes and whether it is lit.
#[derive(Clone, Copy, Debug, PartialEq, Eq, Structural)]
pub struct CellRender {
    pub rect: Rect,
    pub is_active: bool,
}

/// Everything a drawing layer needs for one frame: the 16 cell squares in
/// row-major order and the text line below them.
#[derive(Debug)]
pub struct RenderDescription {
    pub cells: Vec<CellRender>,
    pub text: String,
}

/// The drawn square of cell `i`: one gap in from the cell's origin, with the
/// common square side.
pub open spec fn spec_cell_rect(g: GridGeometry, i: int) -> Rect {
    Rect {
        x: (g.gap_size + g.cell_distance * (i % 4)) as u32,
        y: (g.gap_size + g.cell_distance * (i / 4)) as u32,
        width: g.cell_size,
        height: g.cell_size,
    }
}

/// The drawing order for cell `i` under flags `bits`.
pub open spec fn spec_cell_render(g: GridGeometry, bits: Seq<bool>, i: int) -> CellRender {
    CellRender { rect: spec_cell_rect(g, i), is_active: bits[i] }
}

/// The character for one flag.
pub open spec fn bit_char(b: bool) -> char {
    if b {
        '1'
    } else {
        '0'
    }
}

/// The first `i` cells of the grid line: one character per flag, with a
/// space after every fourth character.
pub open spec fn grid_chars_upto(bits: Seq<bool>, i: int) -> Seq<char>
    decreases i,
{
    if i <= 0 {
        Seq::empty()
    } else {
        let prev = grid_chars_upto(bits, i - 1).push(bit_char(bits[i - 1]));
        if i % 4 == 0 {
            prev.push(' ')
        } else {
            prev
        }
    }
}

/// The whole display line: the sixteen flags in groups of four, each group
/// followed by a space, then an equals sign between spaces, then the decimal
/// value of the flags.
pub open spec fn display_chars(bits: Seq<bool>) -> Seq<char> {
    grid_chars_upto(bits, 16) + seq![' ', '=', ' '] + dec_chars(value_of(bits))
}

/// A description is the one that flags `bits` under geometry `g` call for.
pub open spec fn describes(r: RenderDescription, g: GridGeometry, bits: Seq<bool>) -> bool {
    &&& r.cells@.len() == 16
    &&& forall|i: int| 0 <= i < 16 ==> (#[trigger] r.cells@[i]) == spec_cell_render(g, bits, i)
    &&& r.text@ == display_chars(bits)
}

/// Rendering is a pure projection of the grid state: any two descriptions of
/// the same geometry and flags agree in every rectangle, every flag, and
/// every character of the text.
pub proof fn lemma_render_pure(
    a: RenderDescription,
    b: RenderDescription,
    g: GridGeometry,
    bits: Seq<bool>,
)
    requires
        describes(a, g, bits),
        describes(b, g, bits),
    ensures
        a.cells@ == b.cells@,
        a.text@ == b.text@,
{
    assert(a.cells@ =~= b.cells@);
}

/// The hit test and the render rectangles agree: for any drawable geometry
/// (a square of at least one pixel), hit-testing the centre of cell `i`'s
/// drawn rectangle returns `i` itself.
pub proof fn lemma_hit_test_matches_render(g: GridGeometry, i: int)
    requires
        g.wf(),
        1 <= g.cell_size,
        0 <= i < 16,
    ensures
        ({
            let r = spec_cell_rect(g, i);
            g.spec_hit(
                (r.x + r.width / 2) as u32,
                (r.y + r.height / 2) as u32,
            ) == Some(i as usize)
        }),
{
    let d = g.cell_distance as int;
    let col = i % 4;
    let row = i / 4;
    let off = g.gap_size + g.cell_size / 2;
    assert(0 <= off < d);
    let r = spec_cell_rect(g, i);
    assert(0 <= col < 4 && 0 <= row < 4) by {
        vstd::arithmetic::div_mod::lemma_mod_bound(i, 4);
        vstd::arithmetic::div_mod::lemma_div_pos_is_pos(i, 4);
        vstd::arithmetic::div_mod::lemma_div_is_ordered(i, 15, 4);
    };
    assert(0 <= d * col <= d * 3 && 0 <= d * row <= d * 3) by (nonlinear_arith)
        requires
            0 < d,
            0 <= col < 4,
            0 <= row < 4,
    ;
    let cx = r.x + r.width / 2;
    let cy = r.y + r.height / 2;
    assert(cx == col * d + off) by (nonlinear_arith)
        requires
            cx == (g.gap_size + g.cell_distance * (i % 4)) as u32 as int + g.cell_size / 2,
            col == i % 4,
            d == g.cell_distance,
            off == g.gap_size + g.cell_size / 2,
            0 <= g.gap_size + g.cell_distance * (i % 4) <= u32::MAX,
    ;
    assert(cy == row * d + off) by (nonlinear_arith)
        requires
            cy == (g.gap_size + g.cell_distance * (i / 4)) as u32 as int + g.cell_size / 2,
            row == i / 4,
            d == g.cell_distance,
            off == g.gap_size + g.cell_size / 2,
            0 <= g.gap_size + g.cell_distance * (i / 4) <= u32::MAX,
    ;
    vstd::arithmetic::div_mod::lemma_fundamental_div_mod_converse_mod(cx, d, col, off);
    vstd::arithmetic::div_mod::lemma_fundamental_div_mod_converse_div(cx, d, col, off);
    vstd::arithmetic::div_mod::lemma_fundamental_div_mod_converse_mod(cy, d, row, off);
    vstd::arithmetic::div_mod::lemma_fundamental_div_mod_converse_div(cy, d, row, off);
    assert(row * 4 + col == i) by {
        vstd::arithmetic::div_mod::lemma_fundamental_div_mod(i, 4);
    };
}

} // verus!
