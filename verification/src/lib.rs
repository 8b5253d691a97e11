//! Verified core of the Andromeda launcher: settings, task progress, Minecraft
//! metadata rules, catalog validation and download planning.

pub mod config;
pub mod download;
pub mod domain;
pub mod http;
pub mod minecraft;
pub mod net;
pub mod platform;
pub mod state;
pub mod telemetry;
pub mod text;
