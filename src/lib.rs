//! Integer core of an interactive, progressively refining ray tracer: image
//! codecs, the pseudo-random stream, the raster scan scheduler of
//! progressive rendering, and the application state machine that drives it.

pub mod clamp;
pub mod config;
pub mod director;
pub mod keyboard;
pub mod le_bytes;
pub mod material;
pub mod overlay;
pub mod rnd;
pub mod scan;
pub mod status;
pub mod text;
pub mod texture;

pub use clamp::clamp;
pub use director::{Director, State, TickAction};
pub use keyboard::KeyCode;
pub use material::Kind;
pub use rnd::{Rnd, FAST_RAND_MAX};
pub use scan::{PixelTask, RenderScan};
pub use texture::{FileFormat, Texture, TextureError};
