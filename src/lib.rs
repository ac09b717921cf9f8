//! Verified core of a Whitted-style ray tracer.
//!
//! The floating-point shading lives with the caller; this crate holds the
//! decisions that shape an image: which primitive a ray hits first, when a
//! point lies in shadow, how checkerboard tiles alternate, how the columns of
//! an image are split between workers, how a pixel's bounce loop ends, and
//! where each pixel lands in the framebuffer.
pub mod bounce;
pub mod checker;
pub mod frame;
pub mod hits;
pub mod jobs;
pub mod partition;
pub mod scene;
