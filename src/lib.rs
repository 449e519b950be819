// Block-letter terminal banners, optionally painted with ANSI truecolor.

pub mod banner;
pub mod color;
pub mod glyphs;
pub mod laws;

pub use banner::{Banner, BannerView, IncrediError, UnvalidatedBanner, UnvalidatedView};
pub use glyphs::get_char_line;
