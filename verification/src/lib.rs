//! Core engine of an interactive portfolio "terminal": command dispatch,
//! input-history recall, tab completion, and the confirmation state machine
//! that gates the destructive `restart` and `poweroff` commands.
//!
//! The engine is pure: it consumes already-parsed content and discrete
//! keyboard events, and produces an updated transcript, mode, and live input
//! buffer. Fetching the content document and rendering the transcript are
//! left to the surrounding application.

pub mod content;
pub mod dispatch;
pub mod history;
pub mod laws;
pub mod line;
pub mod registry;
pub mod session;
pub mod text;
