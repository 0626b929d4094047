//! Core logic of the Hydra co-op launcher: configuration rules, game
//! detection and launch profiles, compatibility scoring, window tiling,
//! input assignment, the UDP relay's routing, Proton discovery, and the
//! adaptive record of launches.

pub mod defaults;
pub mod errors;
pub mod text;
pub mod env_vars;
pub mod foreign;
pub mod config;
pub mod proton_integration;
pub mod instance_manager;
pub mod net_emulator;
pub mod input_mux;
pub mod window_manager;
pub mod game_detection;
pub mod compatibility_checker;
pub mod gamepad_manager;
pub mod audio_manager;
pub mod universal_launcher;
pub mod logging;
pub mod adaptive_config;
pub mod session;
pub mod network_bridge;
