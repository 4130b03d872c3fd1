//! Procedural polygonal shapes (cuboid, quad, sphere and an axes locator).
//!
//! Every shape is described by a builder. A builder records the model-space
//! transformations applied to it, in call order, and tessellates its shape into
//! an exact, ordered vertex plan: integer lattice coordinates for the cuboid,
//! the quad and the axes, and longitude/latitude grid samples for the sphere.
//! Each shape also declares how its flat vertex list splits into primitives.

pub mod axes;
pub mod cuboid;
pub mod errors;
pub mod quad;
pub mod sphere;
pub mod transform;
pub mod vertex;
