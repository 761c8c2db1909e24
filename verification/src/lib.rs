//! Text drawing for pixel surfaces: font resolution, glyph layouts and
//! compositing of coverage masks into packed ARGB pixels.

pub mod compose;
pub mod font;
pub mod layout;
pub mod pixel;
pub mod query;
pub mod search;
pub mod substr;

pub use compose::PixelWrite;
pub use font::Font;
pub use layout::{Glyph, GlyphBox, Sample, Text};
pub use query::FontQuery;
pub use search::{Next, Search};
