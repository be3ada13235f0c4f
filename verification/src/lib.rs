//! The host side of a Gray-Scott reaction-diffusion engine and its colour
//! pipeline.
//!
//! The engine integrates the model on a graphics device. This library holds
//! what the host decides and keeps: the concentration field over a toroidal
//! grid, the rates and the nutrient pattern, the roles of the two device
//! buffers, colour gradients with their lookup tables, the registry of colour
//! tables, and the transition from one table to the next.
//!
//! Numbers that the engine only stores, moves and compares are carried as
//! the bit patterns of single-precision numbers. Places on a gradient and
//! blending weights are exact fractions.

pub mod binary32;
pub mod fraction;
pub mod frame_rate;
pub mod gradient;
pub mod gradient_presets;
pub mod gray_scott_model;
pub mod lut_manager;
pub mod lut_transition;
pub mod model_presets;
pub mod nutrient_presets;
pub mod renderer;
pub mod utils;
pub mod world;

pub use gray_scott_model::ReactionDiffusionSystem;
pub use lut_manager::LutData;
pub use nutrient_presets::NutrientPattern;
