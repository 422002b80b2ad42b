//! Server commands: what each one decides and changes.

pub mod context;
pub mod scoreboard;
pub mod world;
pub mod selector;
pub mod info;
pub mod msg;
pub mod admin;
pub mod player;
pub mod advanced;
pub mod entity;
pub mod bossbar;
pub mod blocks;
pub mod execute;
pub mod lists;
pub mod dispatcher;
