//! Configuration, key bindings and per-tick movement decisions for a
//! single-player scene with a follow camera.

pub mod config;
pub mod keybinds;
pub mod motion;
pub mod player;
