//! An engine for disposable, container-backed sessions: it tracks the
//! progress of an image pull, sequences the life of one container, runs
//! commands in it attached or in batch, and removes the container exactly
//! once on every path.
//!
//! The engine does no input or output of its own. Each of its parts is a
//! state machine that says what is to be done next (a call to the container
//! engine, or to the local terminal) and takes, as a plain value, what came
//! of it. The caller makes the calls.
//!
//! - [`session`]: the life of one session, from the pull of the image to the
//!   removal of the container.
//! - [`runner`]: one command run inside the container, attached to the local
//!   terminal, with its output gathered, or detached.
//! - [`progress`]: the progress of the pull, layer by layer.
//! - [`provision`]: the steps that prepare the container, their commands and
//!   their failures.
//! - [`container`]: what the container is made from.
//! - [`archive`]: the archive in which a file is put into the container.
//! - [`error`]: the ways in which a session fails.
//! - [`text`]: the operations on text that the others rest on.

pub mod archive;
pub mod container;
pub mod error;
pub mod progress;
pub mod provision;
pub mod runner;
pub mod session;
pub mod text;

pub use crate::error::Error;
pub use crate::session::Context;
