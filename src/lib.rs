//! Rendering core of a document reader: page rasterization through PDFium,
//! reading-theme recoloring of RGBA buffers, and JPEG data-URI encoding.

pub mod cover;
pub mod encode;
pub mod error;
pub mod format;
pub mod pdf;
pub mod raster;
pub mod session;
pub mod shared;
pub mod text;
pub mod theme;
