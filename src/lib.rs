//! Verified planning core of a drawing backend on top of the raqote software
//! rasterizer: colour conversion, path construction, and the exact raster
//! command that each drawing primitive issues against the bound surface.

pub mod color;
pub mod path;
pub mod backend;

pub use backend::{DrawCommand, RaqoteBackend, RaqoteError, Style};
pub use color::{conv_color, PremultipliedColor, RgbaColor, ALPHA_ONE};
pub use path::{build_path, PathOp};
