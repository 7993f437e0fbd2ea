//! Client side of the HarmonyOS device connector (HDC) wire protocol.
//!
//! The crate holds the protocol itself: the frame codec, the channel
//! handshake, the command catalogue, the address forms of port forwarding,
//! and the session state machine that decides, event by event, what a client
//! sends, reads and returns. It performs no I/O: the session hands out
//! [`client::Action`] values for a driver to carry out and takes back
//! [`client::Event`] values.

pub mod app;
pub mod client;
pub mod error;
pub mod file;
pub mod forward;
pub mod laws;
pub mod protocol;
pub mod text;

pub use app::{InstallOptions, UninstallOptions};
pub use client::HdcClient;
pub use error::HdcError;
pub use file::{FileTransferDirection, FileTransferOptions};
pub use forward::{ForwardNode, ForwardTask};
