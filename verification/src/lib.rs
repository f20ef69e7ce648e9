//! A double-buffered hot-reload cell.
//!
//! The cell keeps an in-memory copy of an externally edited byte buffer
//! fresh for a long-running process. It owns a `current` generation that
//! readers see and a single `pending` slot that an asynchronous change
//! notification fills; a later read promotes the pending generation into
//! the current one. The embedding program supplies the file reads and the
//! change-notification subscription and drives the cell through its
//! verified transitions.

pub mod cell;
pub mod laws;

pub use cell::Guard;
pub use cell::Module;
pub use cell::ModuleView;
