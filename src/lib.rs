//! Integer core of a Monte-Carlo path tracer: axis conventions of the
//! axis-aligned primitives, image-texture addressing, the permutation tables
//! that drive Perlin noise, and the plain-text PPM encoding of a finished
//! raster.
pub mod rotate;
pub mod rect;
pub mod texture;
pub mod perlin;
pub mod ppm;
