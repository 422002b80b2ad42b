//! Verified core of a LAN Minecraft server: world model, command logic,
//! wire framing and stream cipher mode.

pub mod text;
pub mod table;
pub mod words;
pub mod team;
pub mod types;
pub mod position;
pub mod block;
pub mod biome;
pub mod effect;
pub mod constants;
pub mod sound;
pub mod error;
pub mod item;
pub mod world_state;
pub mod parser;
pub mod admin;
pub mod commands;
pub mod net;
