//! A decoder and encoder for a vector-animation interchange document.
//!
//! The library turns a loosely typed, highly polymorphic value tree into a
//! strict domain model: animated properties are normalized into interval
//! keyframes, integer-coded booleans and enumerations are resolved, and the
//! layer/shape tree is decoded into a closed set of variants.  Every decoding
//! and encoding rule is stated as a specification function, and the executable
//! code is proved to follow it exactly.
//!
//! Numbers are carried as fixed-point values in thousandths (`1000` stands for
//! the number one), so that the fractional values of the source format can be
//! represented without floating point.

pub mod anim;
pub mod color;
pub mod doc;
pub mod laws;
pub mod enums;
pub mod methods;
pub mod model;
pub mod path;
pub mod prim;
pub mod shapes;
pub mod value;
