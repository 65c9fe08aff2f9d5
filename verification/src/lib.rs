//! A safety layer over a foreign, handle-based computation library: wrapped
//! handles with an ownership tag, one protocol for every status that crosses
//! the boundary, a default device, and the parameter and optimizer entities
//! built on them.

pub mod device;
pub mod devices;
pub mod foreign;
pub mod handle;
pub mod initializers;
pub mod laws;
pub mod library;
pub mod marshal;
pub mod optimizers;
pub mod parameter;
pub mod shape;
pub mod status;
pub mod tensor;
pub mod wrap;
