//! Axis-aligned rectangle geometry for layout partitioning: carve strips off
//! a rectangle's edges, peek at what a cut would remove, grow a rectangle
//! outward, and bind a rectangle to a side so the side can be chosen at run
//! time. Every operation carries a contract that pins its result exactly.

mod cut;
mod rect;

pub use cut::RectCut;
pub use cut::RectCutSide;
pub use rect::Rect;
pub use rect::RectModel;
