//! Verified core of a head-mounted-display overlay session: the shared
//! runtime lifecycle, the texture upload pipeline, and controller input
//! resolution. The native runtime and the GPU device are reached by the
//! host application, which feeds their results into the functions here.
pub mod actions;
pub mod controller;
pub mod error;
pub mod lifecycle;
pub mod pixels;
pub mod surface;
pub mod texture;
