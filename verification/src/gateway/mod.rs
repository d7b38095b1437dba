//! The gateway between a game and Discord.
pub mod conduct;
pub mod discord;
pub mod frame;
pub mod laws;
pub mod machine;
