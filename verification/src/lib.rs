//! Discord Rich Presence bridge for WINE and Proton.
pub mod bridge;
pub mod command;
pub mod config;
pub mod discovery;
pub mod gateway;
pub mod json;
pub mod log;
pub mod service;
pub mod shared;
pub mod text;
pub mod transfer;
