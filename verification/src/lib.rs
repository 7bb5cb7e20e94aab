//! Verified core of a real-time 3D renderer: the presentation surface,
//! fixed pipeline configuration, object registry and per-frame command
//! recording are modelled as plain data and verified; the surrounding
//! binary performs the actual driver calls.

pub mod container;
pub mod device;
pub mod events;
pub mod frame;
pub mod linalg;
pub mod logging;
pub mod pipeline;
pub mod registry;
pub mod surface;
pub mod transform;
pub mod vertex;
pub mod viewport;
