//! Hot-reload core of a local readme previewer.
//!
//! The crate holds the decisions of the live push channel between a watched
//! file and one browser tab: the accept token of the protocol upgrade, the
//! single-slot connection registry, the modification counter of the watch
//! loop, the upgrade handler, the request router and the page that carries
//! the rendered document. Sockets, the file watcher and the terminal belong
//! to the program around it.

pub mod handshake;
pub mod registry;
pub mod render;
pub mod router;
pub mod text;
pub mod upgrade;
pub mod watch;

pub use crate::render::preview;
