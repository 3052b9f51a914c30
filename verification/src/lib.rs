//! A 4x4 grid of toggle cells whose on/off pattern is read as a 16-bit
//! binary number, cell 0 being the most significant bit.
//!
//! The crate holds the grid's logical core: the pixel geometry derived from a
//! window size, the point-in-grid hit test, the toggleable cell states, the
//! 16-bit value they encode, and the render description (cell rectangles and
//! a display string) that a drawing layer consumes.

pub mod geometry;
pub mod model;
pub mod numeric;
pub mod pointer;
pub mod render;

pub use geometry::GridError;
pub use geometry::GridGeometry;
pub use model::Cell;
pub use model::GridValueModel;
pub use pointer::PointerState;
pub use render::CellRender;
pub use render::Rect;
pub use render::RenderDescription;
