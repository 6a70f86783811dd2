//! Protocol core for writing a raster image to a Waveshare e-paper NFC tag.
//!
//! The crate holds the decisions of a transfer and performs none of its
//! I/O. Nothing here touches a radio, a file or a display: whoever owns a
//! [`session::Session`] does what it asks for and reports back what came of
//! it.
//!
//! - [`tag`]: the three panel profiles and the command frames built from
//!   them.
//! - [`radio`]: what is read out of the transceiver's answers.
//! - [`session`]: the transfer as a state machine, from the validation of
//!   the image to the power-off of the panel.
//! - [`trace`]: what holds of every run of that machine.
//! - [`status`]: the reports shown to the user, and their texts.
//! - [`numeral`]: decimal numerals.
//! - [`menu`]: the events of the application around a transfer.

pub mod menu;
pub mod numeral;
pub mod radio;
pub mod session;
pub mod status;
pub mod tag;
pub mod trace;
