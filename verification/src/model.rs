//! The grid model: sixteen toggleable cells under a fixed geometry.

use vstd::prelude::*;

verus! {

use vstd::arithmetic::power2::pow2;
use vstd::pervasive::VecAdditionalExecFns;
use vstd::string::StringExecFns;
use crate::geometry::GridError;
use crate::geometry::GridGeometry;
use crate::numeric::decimal_string;
use crate::numeric::value_of;
use crate::render::CellRender;
use crate::render::Rect;
use crate::render::RenderDescription;
use crate::render::describes;
use crate::render::display_chars;
use crate::render::grid_chars_upto;
use crate::render::spec_cell_render;

/// One toggle position: a bare on/off flag.
#[derive(Clone, Copy, Debug, Default, PartialEq, Eq, Structural)]
pub struct Cell {
    pub is_active: bool,
}

/// The flags of a fresh model: all sixteen cells inactive.
pub open spec fn all_inactive() -> Seq<bool> {
    Seq::new(16, |i: int| false)
}

/// The flags after toggling position `i`.
pub open spec fn toggle_bits(bits: Seq<bool>, i: int) -> Seq<bool> {
    bits.update(i, !bits[i])
}

/// Toggling a cell twice restores the original flags (involution).
pub proof fn lemma_toggle_involution(bits: Seq<bool>, i: int)
    requires
        0 <= i < bits.len(),
    ensures
        toggle_bits(toggle_bits(bits, i), i) == bits,
{
    assert(toggle_bits(toggle_bits(bits, i), i) =~= bits);
}

/// The 4x4 grid of toggle cells together with its pixel geometry.
#[derive(Debug)]
pub struct GridValueModel {
    cells: Vec<Cell>,
    geometry: GridGeometry,
}

impl GridValueModel {
    /// The sixteen cell flags, row-major, cell 0 first.
    pub closed spec fn bits(self) -> Seq<bool> {
        self.cells@.map_values(|c: Cell| c.is_active)
    }

    /// The geometry the model was built with.
    pub closed spec fn spec_geometry(self) -> GridGeometry {
        self.geometry
    }

    /// Sixteen cells under a well-formed geometry.
    pub open spec fn wf(self) -> bool {
        self.bits().len() == 16 && self.spec_geometry().wf()
    }

    /// Build the model for a window: geometry per the window size, all
    /// sixteen cells inactive. Fails exactly when the window is too small to
    /// give the cells a positive pitch.
    pub fn new(width: u32, height: u32) -> (r: Result<GridValueModel, GridError>)
        ensures
            GridGeometry::pitch_of(width, height) == 0 ==> (r matches Err(e) && e
                == GridError::Configuration),
            GridGeometry::pitch_of(width, height) > 0 ==> (r matches Ok(m) && m.wf()
                && m.spec_geometry() == GridGeometry::of_pitch(GridGeometry::pitch_of(width, height))
                && m.bits() == all_inactive()),
    {
        let geometry = match GridGeometry::from_window(width, height) {
            Ok(g) => g,
            Err(e) => {
                return Err(e);
            },
        };
        let cells: Vec<Cell> = vec![Cell { is_active: false }; 16];
        let model = GridValueModel { cells, geometry };
        proof {
            assert(model.bits() =~= all_inactive());
        }
        Ok(model)
    }

    /// The geometry the model draws with.
    pub fn geometry(&self) -> (g: GridGeometry)
        ensures
            g == self.spec_geometry(),
    {
        self.geometry
    }

    /// Whether cell `index` is lit.
    pub fn is_active(&self, index: usize) -> (r: bool)
        requires
            self.wf(),
            index < 16,
        ensures
            r == self.bits()[index as int],
    {
        self.cells[index].is_active
    }

    /// Flip one cell's flag. Reports an error, and leaves the model
    /// unchanged, when the index is at or above the cell count.
    pub fn toggle(&mut self, index: usize) -> (r: Result<(), GridError>)
        requires
            old(self).wf(),
        ensures
            final(self).wf(),
            final(self).spec_geometry() == old(self).spec_geometry(),
            index < 16 ==> r == Ok::<(), GridError>(()) && final(self).bits() == toggle_bits(
                old(self).bits(),
                index as int,
            ),
            index >= 16 ==> r == Err::<(), GridError>(GridError::IndexOutOfRange) && *final(self)
                == *old(self),
    {
        if index < 16 {
            let flag = self.cells[index].is_active;
            self.cells.set(index, Cell { is_active: !flag });
            proof {
                assert(self.bits() =~= toggle_bits(old(self).bits(), index as int));
            }
            Ok(())
        } else {
            Err(GridError::IndexOutOfRange)
        }
    }

    /// Hit-test a pointer position and toggle the cell it lands on, if any.
    /// Returns the toggled cell's index; on a miss the model is unchanged.
    pub fn apply_click(&mut self, x: u32, y: u32) -> (r: Option<usize>)
        requires
            old(self).wf(),
        ensures
            final(self).wf(),
            final(self).spec_geometry() == old(self).spec_geometry(),
            r == old(self).spec_geometry().spec_hit(x, y),
            r matches Some(i) ==> i < 16 && final(self).bits() == toggle_bits(
                old(self).bits(),
                i as int,
            ),
            r is None ==> *final(self) == *old(self),
    {
        let hit = self.geometry.hit_test(x, y);
        if let Some(index) = hit {
            let _ = self.toggle(index);
        }
        hit
    }

    /// The 16-bit value the flags encode, cell 0 the most significant bit.
    pub fn encoded_value(&self) -> (r: u16)
        requires
            self.wf(),
        ensures
            r as nat == value_of(self.bits()),
    {
        let ghost bits = self.bits();
        let mut value: u16 = 0;
        proof {
            vstd::arithmetic::power2::lemma2_to64();
        }
        for i in 0..16usize
            invariant
                self.wf(),
                bits == self.bits(),
                value as nat == value_of(bits.take(i as int)),
                (value as nat) < pow2(i as nat),
        {
            proof {
                vstd::arithmetic::power2::lemma2_to64();
                if i < 15 {
                    vstd::arithmetic::power2::lemma_pow2_strictly_increases(i as nat, 15);
                }
                vstd::arithmetic::power2::lemma_pow2_unfold((i + 1) as nat);
                assert(bits.take(i + 1).drop_last() =~= bits.take(i as int));
            }
            let active = self.cells[i].is_active;
            value = value * 2 + (if active {
                1
            } else {
                0
            });
        }
        proof {
            assert(bits.take(16) =~= bits);
        }
        value
    }

    /// Produce the frame's render description: the sixteen cell squares in
    /// row-major order with their flags, and the display line of binary
    /// groups and decimal value.
    pub fn render_description(&self) -> (r: RenderDescription)
        requires
            self.wf(),
        ensures
            describes(r, self.spec_geometry(), self.bits()),
    {
        let g = self.geometry;
        let ghost bits = self.bits();
        let mut cells_out: Vec<CellRender> = Vec::new();
        let mut text = String::new();
        for i in 0..16usize
            invariant
                self.wf(),
                g == self.spec_geometry(),
                bits == self.bits(),
                cells_out@.len() == i,
                forall|j: int|
                    0 <= j < i ==> (#[trigger] cells_out@[j]) == spec_cell_render(g, bits, j),
                text@ == grid_chars_upto(bits, i as int),
        {
            proof {
                reveal_strlit("0");
                reveal_strlit("1");
                reveal_strlit(" ");
            }
            let active = self.cells[i].is_active;
            if active {
                text.append("1");
            } else {
                text.append("0");
            }
            if (i + 1) % 4 == 0 {
                text.append(" ");
            }
            proof {
                assert(text@ =~= grid_chars_upto(bits, i + 1));
            }
            let col = (i % 4) as u32;
            let row = (i / 4) as u32;
            proof {
                assert(g.cell_distance * col + g.gap_size < 0x1_0000_0000 && g.cell_distance * row
                    + g.gap_size < 0x1_0000_0000) by (nonlinear_arith)
                    requires
                        col < 4,
                        row < 4,
                        g.cell_distance < 0x4000_0000,
                        g.gap_size <= g.cell_distance,
                ;
            }
            let x = g.gap_size + g.cell_distance * col;
            let y = g.gap_size + g.cell_distance * row;
            cells_out.push(
                CellRender {
                    rect: Rect { x, y, width: g.cell_size, height: g.cell_size },
                    is_active: active,
                },
            );
        }
        let value = self.encoded_value();
        proof {
            reveal_strlit(" = ");
            assert(" = "@ =~= seq![' ', '=', ' ']);
        }
        text.append(" = ");
        let dec = decimal_string(value);
        text.append(dec.as_str());
        proof {
            assert(text@ =~= display_chars(bits));
        }
        RenderDescription { cells: cells_out, text }
    }
}

} // verus!
