//! Pixel-buffer marshalling and pipeline decisions for turning the pages of a
//! PDF document into recognised text.

pub mod bits;
pub mod ocr;
pub mod pix;
pub mod raster;
pub mod render;
pub mod report;
