//! Status and control logic for a Tapo L900 light strip in a status bar.
//!
//! - [`action`]: the actions and the command line
//! - [`session`]: one request to the strip, call by call
//! - [`state`] and [`nickname`]: what the strip reports, and how it is shown
//! - [`control`]: the changes that actions make
//! - [`color`]: the palette and color arithmetic
//! - [`output`]: the status line
//! - [`config`] and [`paths`]: the connection settings and where files live
//! - [`import`] and [`address`]: importing the settings and changing the address, as tasks on the
//!   [`disk`]
//! - [`lock`]: taking turns
//! - [`json`] and [`text`]: JSON values and text

pub mod action;
pub mod address;
pub mod color;
pub mod config;
pub mod control;
pub mod disk;
pub mod import;
pub mod json;
pub mod lock;
pub mod nickname;
pub mod output;
pub mod paths;
pub mod session;
pub mod state;
pub mod text;
