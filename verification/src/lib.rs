//! The decision core of a Monte-Carlo path tracer for scenes of spheres.
//!
//! Every quantity that the renderer measures (a distance along a ray, a dot
//! product, a random draw) enters this library as the IEEE 754 bit pattern of
//! a single-precision number. The library orders such numbers, picks the
//! nearest intersection, decides how a material answers a ray and bounds the
//! depth of light transport; the arithmetic that produces the numbers is the
//! caller's.
pub mod scalar;
pub mod integrator;
pub mod scene;
pub mod material;
pub mod driver;
pub mod image;
pub mod world;
