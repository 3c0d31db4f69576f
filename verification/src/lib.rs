//! Decision and formatting rules of a weather applet: forecast pairing,
//! condition icons, locale rules, hour labels and NWS request shapes.
pub mod text;
pub mod types;
pub mod config;
pub mod nws;
pub mod weather;
pub mod backend;
pub mod views;
