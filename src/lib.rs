//! A verified model of a minimal GPU task pipeline: device and queue-family
//! selection, resource allocation, command recording, submission with
//! completion signals, and synchronised readback.

pub mod device;
pub mod error;
pub mod resource;
pub mod raster;
pub mod recorder;
pub mod engine;
pub mod laws;
pub mod pipeline;
pub mod run;
