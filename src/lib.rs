//! Text rendering through a shared glyph atlas: the packing of glyph cells into
//! one texture, the compilation of strings into vertex data, and the cache of
//! GPU state that keeps consecutive draws from repeating state changes.
use vstd::prelude::*;

pub mod atlas;
pub mod character;
pub mod font;
pub mod model;
pub mod shaders;

pub use atlas::{AtlasError, GlyphAtlas, GlyphCell, GlyphMetric};
pub use character::{Character, Ratio};
pub use font::{FontDetails, FontID};
pub use model::{LayoutError, TextLayout};
pub use shaders::{Color, DrawPlan, DrawRequest, RenderState, TextColors, UniformPair};

verus! {

/// The font size, in pixels, at which atlases are rasterized unless chosen otherwise.
pub const DEFAULT_FONT_SIZE: u32 = 250;

/// The default stroke width as a fraction of the font size: one fiftieth.
pub const DEFAULT_LINE_WIDTH_NUMERATOR: u32 = 1;

pub const DEFAULT_LINE_WIDTH_DENOMINATOR: u32 = 50;

/// The characters that atlases hold unless chosen otherwise.
pub const DEFAULT_CHARS: &'static str = "abcdefghijklmnopqrstuvwxyzABCDEFGHIJKLMNOPQRSTUVWXYZáçéíóúýÁÇÉÍÓÚÝ 0123456789!@#$%^&*?<>:\"';[]{}()|\\/.,-_=+€`~";

} // verus!
