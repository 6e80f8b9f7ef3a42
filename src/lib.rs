//! Integer core of a small path tracer: render configuration and raster
//! order, the plain-text pixmap encoding, and the bounce-budget rules of the
//! radiance integrator.
pub mod path;
pub mod plan;
pub mod ppm;
