//! Integer core of a rune-particle visualiser: the xorshift generator that
//! seeds the particles, the layout of the rune atlas texture, the palette
//! cycle of click waves, the surface size and the routing of window input.

pub mod atlas;
pub mod controls;
pub mod rng;
pub mod surface;

pub use atlas::{build_atlas, CELL_PIXELS, SYMBOL_CELL};
pub use controls::{next_palette_index, Controls, Response, WindowInput, PALETTE_LEN};
pub use rng::Rng;
pub use surface::SurfaceSize;
