//! Batch JPEG half-scaler: filename scanning, output path derivation, and a
//! decode / downscale / reorient pipeline whose geometry is verified over an
//! abstract pixel-grid model.

pub mod grid;
pub mod scan;
pub mod paths;
pub mod imaging;
pub mod meta;
pub mod pipeline;
