//! Core of a Chromium remote-debugging client that renders HTML and captures
//! screenshots: message framing, reply correlation, launch planning and the
//! capture protocol, with machine-checked contracts.
//!
//! The library computes and decides; it performs no input or output. A
//! program around it owns the browser process and the socket, and is told
//! by the library what to send, what to wait for and what to make of what
//! comes back.

pub mod browser;
pub mod element;
pub mod error;
pub mod exit_hook;
pub mod json;
pub mod number;
pub mod plan;
pub mod protocol;
pub mod readiness;
pub mod reply;
pub mod tab;
pub mod text;
pub mod transport;
pub mod types;

pub use element::Element;
pub use error::Error;
pub use exit_hook::ExitHook;
pub use number::Decimal;
pub use tab::Tab;
pub use types::{CaptureOptions, ClipRegion, ImageFormat, Viewport, ViewportBuilder};
