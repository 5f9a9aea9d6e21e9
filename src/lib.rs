//! Integer core of an instanced, compute-animated grass renderer: the blade
//! and ground index tables, the per-instance attribute layout, the compute
//! dispatch size, the per-frame command order, surface sizing and the
//! drag tracking of the orbit camera.
pub mod config;
pub mod dispatch;
pub mod drag;
pub mod frame;
pub mod ground;
pub mod layout;
pub mod mesh;
pub mod surface;
