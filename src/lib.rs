//! Scene description, image geometry, path-tracing decisions and PPM
//! encoding for a Monte-Carlo ray tracer.
pub mod ppm;
pub mod gpu;
pub mod params;
pub mod ratio;
pub mod scene;
pub mod scenes;
pub mod trace;
