//! Integer and text side of a small sky-gradient renderer: the size of the
//! image, the order in which its pixels are visited, and the plain-text
//! pixel-map encoding of the result.

pub mod frame;
pub mod ppm;
