use vstd::prelude::*;

pub mod grid;
pub mod interp;
pub mod laws;
pub mod render;
pub mod semantics;

pub use grid::Grid;
pub use interp::Befunge;
pub use render::fix_char_width;
pub use semantics::{Direction, Fault, Mode};

verus! {

} // verus!
