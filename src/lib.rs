//! Bundles named input files into one zip container.
//!
//! The library holds the parts of the tool that decide things: turning the
//! argument list into a request, the error taxonomy with its exit codes, and
//! the creation pipeline as a state machine whose every step is stated and
//! proved. The program around it performs the file and container operations
//! that the state machine asks for.
pub mod command;
pub mod creation;
pub mod error;

pub use command::{CreateArchive, RequestView};
pub use creation::{Action, ActionView, Creation, Stage};
pub use error::{Error, ErrorKind, ErrorView};
