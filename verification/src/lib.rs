//! The control core of a modal, terminal-based text editor.
//!
//! This crate owns the editing session, the active mode, the clipboard,
//! the pending error, and the render/wait loop that sequences them. The
//! collaborators around it — the on-disk text buffers, the terminal
//! backend, the per-mode presenters and command handlers, version-control
//! discovery — are reached only through narrow, explicit interfaces: the
//! core receives their outcomes as plain values and decides everything
//! else itself, which is what lets every decision in here be verified.

pub mod application;
pub mod clipboard;
pub mod error;
pub mod event;
pub mod modes;
pub mod preferences;
pub mod view;
pub mod workspace;

pub use crate::application::{Application, Mode};
pub use crate::clipboard::ClipboardContent;
pub use crate::event::Event;
pub use crate::preferences::Preferences;
