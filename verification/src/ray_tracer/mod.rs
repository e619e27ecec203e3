//! The rules of the path tracer.

pub mod cpu;
pub mod gpu;
pub mod hud;
pub mod intersect;
pub mod materials;
pub mod path;
pub mod period;
pub mod progress;
pub mod rng;
pub mod scene;
pub mod uniforms;
pub mod units;
