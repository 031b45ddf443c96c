//! Driver core for the SSD1680 e-paper display controller.
//!
//! To control a display you need an implementation of [`DisplayInterface`]
//! for the hardware connection, a validated [`Config`] (usually made with a
//! [`Builder`]) and a [`Display`]. A [`Display`] can be promoted to a
//! [`GraphicDisplay`], which owns a bit-packed frame to draw into.
//!
//! To update the display you will typically follow this flow:
//!
//! 1. reset
//! 1. clear
//! 1. update
//! 1. deep sleep
pub mod color;
pub mod command;
pub mod config;
pub mod display;
pub mod error;
pub mod graphics;
pub mod interface;

pub use color::Color;
pub use config::{Builder, Config};
pub use display::{Dimensions, Display, Rotation, State};
pub use error::Ssd1680Error;
pub use graphics::GraphicDisplay;
pub use interface::{BusyAction, BusyWait, DisplayInterface, Transport};
