//! A descriptor-driven layer over an explicit native graphics API.
//!
//! The library holds the rules of the layer: how portable descriptors become
//! native configuration values, how resources are created step by step, and
//! how a command encoder moves between idle and recording. The calls into the
//! driver are made by the program around it, from the values computed here.

pub mod adapter;
pub mod buffer;
pub mod command;
pub mod conv;
pub mod device;
pub mod flags;
pub mod format;
pub mod image;
pub mod memory;
pub mod native;
pub mod pipeline;
pub mod queue;
pub mod raster;
pub mod render;
pub mod shader;
pub mod sync;
pub mod texture;
pub mod types;
pub mod vn;
