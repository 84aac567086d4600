//! Hardware video codec abstraction: which (graphics API, codec) pairs a
//! backend offers, the uniform session lifecycle every backend implements,
//! and the surface that presents decoded textures.
pub mod catalog;
pub mod dispatch;
pub mod recording;
pub mod render;
