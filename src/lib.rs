//! Deterministic terrain and biome synthesis over fixed-point numbers.
//!
//! Every real-valued quantity is held as a fixed-point integer: positions
//! and settings in millionths ([`fixed::MICRO`]), noise values, climate
//! quantities and colours in units of 10^-12 ([`fixed::ONE`]). The
//! coherent-noise primitive itself is supplied by the caller: the library
//! says at which points to sample it and turns the samples into climate
//! values, biomes and tiles.

pub mod fixed;
pub mod biome;
pub mod tile;
pub mod noise_field;
pub mod climate;
pub mod terrain;
pub mod controls;

pub use biome::Biome;
pub use climate::{ClimateSample, Location, NoiseValues};
pub use controls::Control;
pub use noise_field::NoiseField;
pub use terrain::{ConfigError, NoisePoints, NoiseSamples, Settings, TerrainGenerator};
pub use tile::{Rgb, TileDescriptor};
