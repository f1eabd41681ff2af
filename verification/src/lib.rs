//! Session reconciliation for the Niri compositor: the rules that turn the
//! live windows and workspaces into a snapshot, and a snapshot back into a
//! sequence of spawn and placement commands.
//!
//! The library decides and its caller acts. Nothing here reads a file, opens
//! a socket, sleeps or looks at a clock: the caller hands in what it read and
//! what the compositor answered, and carries out the actions it is given.
//!
//! - [`model`]: the records of a snapshot, the live state, the configuration.
//! - [`saver`]: the join of windows and workspaces that makes the records.
//! - [`replay`]: the order in which records are replayed.
//! - [`title`], [`command`]: the hints in a window's title and the command
//!   that launches its application again.
//! - [`plan`], [`restorer`]: the placements of a restore and the state
//!   machine that carries them out, one window after the other.
//! - [`driver`]: when to restore, when to save, when to stop.
//! - [`logger`]: the lines that are logged.
//! - [`text`]: the operations on strings that the others share.

pub mod command;
pub mod driver;
pub mod logger;
pub mod model;
pub mod plan;
pub mod replay;
pub mod restorer;
pub mod saver;
pub mod text;
pub mod title;
