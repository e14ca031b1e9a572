//! The rules of a path tracer for scenes of spheres.
//!
//! A render sends rays from a camera into a scene, follows each along its
//! bounces off diffuse, metallic, refracting and light-giving surfaces, and
//! turns the light that comes back into the pixels of an image.
//!
//! The numbers of a scene are IEEE 754 binary32, held by their bit
//! patterns. This crate never rounds one: sums, products and roots are the
//! caller's to work out. What it is handed it carries, orders and decides
//! on: which root of a ray and a sphere is the hit, which hit of a scene
//! is the nearest, whether a surface scatters a ray and where to, how a
//! path ends, and which level from 0 to 255 a channel of a pixel gets. For
//! a render on a compute device it packs the scene into the bytes that the
//! device reads and makes the image of the bytes read back.

pub mod camera;
pub mod color;
pub mod hit;
pub mod integrator;
pub mod material;
pub mod ray;
pub mod raytracer;
pub mod scalar;
pub mod sphere;
pub mod vec3;
