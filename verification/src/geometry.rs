//! Pixel layout of the grid and the point-in-grid hit test.

use vstd::prelude::*;

verus! {

/// Errors reported by the grid core.
#[derive(Clone, Copy, Debug, PartialEq, Eq, Structural)]
pub enum GridError {
    /// The window dimensions are degenerate: they yield no positive cell pitch.
    Configuration,
    /// A cell index at or above the cell count was passed to `toggle`.
    IndexOutOfRange,
}

/// Pixel layout of the 4x4 grid: the pitch between cell origins
/// (`cell_distance`), the drawn square's side (`cell_size`), and the margin
/// before each drawn square (`gap_size`).
#[derive(Clone, Copy, Debug, PartialEq, Eq, Structural)]
pub struct GridGeometry {
    pub cell_distance: u32,
    pub cell_size: u32,
    pub gap_size: u32,
}

impl GridGeometry {
    /// The geometry is non-degenerate, one pitch is exactly gap plus square,
    /// and four pitches fit in a `u32`.
    pub open spec fn wf(self) -> bool {
        &&& 0 < self.cell_distance
        &&& self.cell_size <= self.cell_distance
        &&& self.gap_size + self.cell_size == self.cell_distance
        &&& self.cell_distance < 0x4000_0000
    }

    /// The cell pitch a window yields: nine tenths of the smaller dimension,
    /// split into four columns, everything floored.
    pub open spec fn pitch_of(width: u32, height: u32) -> int {
        (vstd::math::min(width as int, height as int) * 9) / 40
    }

    /// The geometry built on a given pitch: the drawn square takes nine
    /// tenths of the pitch, floored; the gap is the remainder.
    pub open spec fn of_pitch(d: int) -> GridGeometry {
        GridGeometry {
            cell_distance: d as u32,
            cell_size: ((d * 9) / 10) as u32,
            gap_size: (d - (d * 9) / 10) as u32,
        }
    }

    /// Derive the geometry from the window size. Fails exactly when the
    /// window is too small to give each cell a positive pitch.
    pub fn from_window(width: u32, height: u32) -> (r: Result<GridGeometry, GridError>)
        ensures
            Self::pitch_of(width, height) == 0 ==> r == Err::<GridGeometry, GridError>(
                GridError::Configuration,
            ),
            Self::pitch_of(width, height) > 0 ==> r == Ok::<GridGeometry, GridError>(
                Self::of_pitch(Self::pitch_of(width, height)),
            ) && (r matches Ok(g) && g.wf()),
    {
        let m: u64 = if width < height {
            width as u64
        } else {
            height as u64
        };
        let d: u64 = (m * 9) / 40;
        if d == 0 {
            return Err(GridError::Configuration);
        }
        assert(d <= 0x3999_9999) by {
            assert(m * 9 <= 0xFFFF_FFFFu64 * 9) by (nonlinear_arith)
                requires m <= 0xFFFF_FFFFu64;
        };
        let s: u64 = (d * 9) / 10;
        assert(s <= d) by {
            assert(d * 9 <= d * 10) by (nonlinear_arith);
            vstd::arithmetic::div_mod::lemma_div_is_ordered(d * 9, d * 10, 10);
            vstd::arithmetic::div_mod::lemma_div_by_multiple(d as int, 10);
        };
        let cell_distance: u32 = d as u32;
        let cell_size: u32 = s as u32;
        let gap_size: u32 = cell_distance - cell_size;
        Ok(GridGeometry { cell_distance, cell_size, gap_size })
    }

    /// Where a pointer position lands: the cell's row-major index, or `None`
    /// when the position falls in a gap or beyond the fourth row or column.
    /// The span check is inclusive on both ends of the drawn square.
    pub open spec fn spec_hit(self, x: u32, y: u32) -> Option<usize> {
        let d = self.cell_distance as int;
        let lx = (x as int) % d;
        let ly = (y as int) % d;
        let col = (x as int) / d;
        let row = (y as int) / d;
        if self.gap_size <= lx && lx <= self.gap_size + self.cell_size && self.gap_size <= ly
            && ly <= self.gap_size + self.cell_size && col < 4 && row < 4 {
            Some((row * 4 + col) as usize)
        } else {
            None
        }
    }

    /// Hit-test a pointer position against the grid.
    pub fn hit_test(&self, x: u32, y: u32) -> (r: Option<usize>)
        requires
            self.wf(),
        ensures
            r == self.spec_hit(x, y),
            r matches Some(i) ==> i < 16,
    {
        let lx = x % self.cell_distance;
        let ly = y % self.cell_distance;
        if lx >= self.gap_size && lx <= self.cell_size + self.gap_size && ly >= self.gap_size && ly
            <= self.cell_size + self.gap_size {
            let col = x / self.cell_distance;
            let row = y / self.cell_distance;
            if col < 4 && row < 4 {
                return Some((row * 4 + col) as usize);
            }
        }
        None
    }
}

} // verus!
