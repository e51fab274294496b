//! Driver core for a WS2812B addressable LED strip.
//!
//! The crate models the pixel-rendering subsystem of a badge firmware: a
//! shared frame buffer of 16 pixels, a coalescing change notifier, a pure
//! encoder from channel bytes to hardware pulse descriptors, and the render
//! loop that feeds the pulse-generation peripheral one pixel-sized chunk at
//! a time. The hardware itself (RMT peripheral, radio, sensors) is driven by
//! an unverified shell around this library.

pub mod commands;
pub mod frame;
pub mod notifier;
pub mod pulse;
pub mod render;
pub mod webfile;
pub mod ws2812b;
