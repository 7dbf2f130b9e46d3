//! Sans-I/O driver for the GDEW0213I5F 2.13" e-paper panel.
//!
//! The panel's controller is driven over a serial bus with four control lines.
//! This crate holds the protocol: which commands and parameter bytes each display
//! operation sends, in which order, and how a running sequence reacts to bus
//! errors and to the busy line. It never touches hardware itself. Every operation
//! yields a list of [`Transfer`]s, and a [`Transaction`] walks such a list one step
//! at a time while the caller performs each step on its own bus and pins.

pub mod color;
pub mod command;
pub mod constants;
pub mod driver;
pub mod transaction;
pub mod transfer;

pub use color::Color;
pub use command::Command;
pub use driver::{
    InvalidBufferLength, RefreshLUT, DEFAULT_BACKGROUND_COLOR, FRAME_BYTES, GDEW0213I5F, HEIGHT,
    IS_BUSY_LOW, WIDTH,
};
pub use transaction::{Outcome, Transaction};
pub use transfer::Transfer;
