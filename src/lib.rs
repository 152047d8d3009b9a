//! An image editing engine: a picture being edited, operators that transform it, and
//! undo and redo history of whole-picture snapshots.
use vstd::prelude::*;

pub mod imaging;
pub mod raster;
pub mod session;

pub use imaging::FilterKind;
pub use raster::PixelBuffer;
pub use session::{EditError, ImageOperations};

verus! {

} // verus!
