//! The metadata pipeline of a camera stack, with its logic verified.
//!
//! The pipeline side: `consts` scans system headers for the packed
//! pixel-format codes and layout modifiers; `yaml` and `meta` normalize
//! the per-version control and property schemas; `catalog` resolves the
//! format catalogue against the constant tables; `layout` extracts the
//! per-format layout records; `emit` renders the three generated source
//! files; `version` filters harvested versions and resolves a generated
//! artifact set against an installed runtime version.
//!
//! Alongside it stand the pure parts of the runtime wrapper layer:
//! `geometry`, the `pixel_format` arithmetic, the configuration and
//! logging enums, and the `framebuffer_map` planning rules. `text` holds
//! the byte-level scanning and rendering helpers both sides share.

pub mod camera;
pub mod catalog;
pub mod color_space;
pub mod consts;
pub mod emit;
pub mod framebuffer_map;
pub mod geometry;
pub mod installed;
pub mod layout;
pub mod logging;
pub mod meta;
pub mod pixel_format;
pub mod request;
pub mod text;
pub mod version;
pub mod yaml;
