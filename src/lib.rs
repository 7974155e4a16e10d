//! A single plant grown over accelerated time and drawn as ASCII art.
//!
//! The library holds the seed-driven structure generator, the renderer that
//! paints a fixed character grid from a structure and a day, and the growth
//! simulation that advances a plant's age, resources, health and stress.
pub mod rng;
pub mod genetics;
pub mod plant;
pub mod structure;
pub mod render;
pub mod cache;
pub mod harvest;
pub mod visual_mode;
pub mod layout;
pub mod message;
pub mod palette;
pub mod state;
