//! Verified core of a launcher for the Anomaly game.
pub mod text;
pub mod checksum;
pub mod config;
pub mod user_ltx;
pub mod files;
pub mod system;
pub mod localization;
