//! The reply of a file-delete command.
//!
//! A front end asks for one file to be removed and is told either that the
//! removal completed or, as free text, why it did not. The removal itself is
//! the host system's work; this library decides what the caller hears.

pub mod reply;
