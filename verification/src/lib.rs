//! Game rules of a small open-world city game: wanted level, police
//! dispatch, weapons, vehicles, city grid geometry, spawn planning and HUD
//! text. Durations are integer milliseconds, health is integer milli-HP and
//! distances used for decisions are integer millimetres; the engine around
//! the library converts its floating-point state to these units.
pub mod rng;
pub mod text;
pub mod rules;
pub mod state;
pub mod city;
pub mod geometry;
pub mod traffic;
pub mod input;
pub mod hud;
pub mod laws;
pub mod police;
pub mod weapons;
pub mod player;
