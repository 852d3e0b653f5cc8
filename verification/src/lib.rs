//! # Alcro
//!
//! The verified core of a library that turns a locally installed
//! Chromium-family browser into the window of a desktop application.
//!
//! The crate holds what the session decides and computes: how messages are
//! framed on the debugging pipe, which command goes out for each operation,
//! how each inbound frame is routed, and how a reply becomes a result. It
//! performs no I/O: a caller feeds it the bytes it read and writes the bytes
//! it is handed.

pub mod bounds;
pub mod chrome;
pub mod cmdline;
pub mod devtools;
pub mod facade;
pub mod handshake;
pub mod json;
pub mod launch;
pub mod lifecycle;
pub mod locate;
pub mod pipe;
pub mod socket;
pub mod table;

pub use bounds::{Bounds, WindowState};
pub use chrome::{Chrome, JSError};
pub use devtools::JSResult;
pub use json::JSObject;
pub use launch::{Content, UIBuilder, UILaunchError};
