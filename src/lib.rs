pub mod atlas;
pub mod autotile;
pub mod biome;
pub mod generator;
pub mod grid;
pub mod misc;
pub mod placement;
pub mod pride;
pub mod render;
pub mod rng;
pub mod seed;
