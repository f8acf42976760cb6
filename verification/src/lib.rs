//! A stochastic ray tracer whose arithmetic is carried out in signed 64-bit
//! fixed-point numbers (32 fractional bits), so that every geometric and
//! radiometric computation can be specified and verified exactly.

pub mod color;
pub mod data;
pub mod fixed;
pub mod material;
pub mod object;
pub mod perlin;
pub mod quaternion;
pub mod ray;
pub mod renderer;
pub mod rng;
pub mod settings;
pub mod texture;
pub mod trig;
pub mod util;
pub mod vector;
pub mod world;
