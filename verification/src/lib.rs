//! A typed layer over a handle-based graphics device.
//!
//! Resources of the device (shaders, programs, buffers, vertex arrays) are
//! held by single-owner wrappers. Every operation takes the device handle
//! and states, over the history of requests made of the device, exactly
//! which requests it adds and in which order.

pub mod buffer;
pub mod derive;
pub mod device;
pub mod frames;
pub mod gl;
pub mod history;
pub mod layout;
pub mod log;
pub mod mesh;
pub mod record;
pub mod recorder;
pub mod shader;
pub mod uniform;
pub mod vector;
pub mod vertex;
