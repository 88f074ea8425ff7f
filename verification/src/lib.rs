//! Verified core of a small gradient-image emitter.
//!
//! The library has two parts: an integer RGB colour triple with the
//! elementwise arithmetic that the vector operators apply to their colour
//! channels, and the assembly of a plain-text PPM image (header plus one
//! line of three decimal channel values per pixel).
//!
//! Floating-point work (the position triple of the vector type, and the
//! sampling of normalized pixel coordinates) cannot be verified and lives
//! outside the library; it hands the library plain integers.

pub mod color;
pub mod ppm;
