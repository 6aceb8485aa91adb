//! Verified core of the iron rainbow simulator: the integer and decision logic
//! behind the 2D renderer, the GPU dispatch plan, the path-trace event records,
//! the LUT settings and the 3D viewer's controls.

pub mod canvas;
pub mod line;
pub mod font;
pub mod controls;
pub mod path_trace;
pub mod gpu;
pub mod particles;
pub mod lut;

pub use canvas::{PixelCanvas, Rgb8};
pub use lut::{NormalizeMode, OutputConfig};
pub use path_trace::{EventType, PathTraceResult};
