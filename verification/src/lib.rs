//! The rules of two canvas programs, a brick-breaking game and a path tracer.

pub mod bits32;
pub mod bits64;
pub mod block_breaker;
pub mod ray_tracer;
