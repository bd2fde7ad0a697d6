//! A deterministic, simulated filesystem for discrete-event simulation.
//!
//! Every file is a small state machine over two versions of its content: the
//! durable one and the one in memory. Writes make a file dirty, a flush makes
//! it clean again after a delay counted on the simulation's virtual clock.
//! The library never sleeps and never reads a clock: each operation takes the
//! current virtual time and says either that it is done or until when the
//! caller has to wait before asking again.

pub mod content;
pub mod state;
pub mod fs;
pub mod file;
pub mod sim;
pub mod laws;

pub use crate::file::SeekFrom;
pub use crate::fs::{File, Filesystem, FsError, OpenOptions};
pub use crate::sim::FsSimulator;
pub use crate::state::{FileState, FsConfig, Poll};

