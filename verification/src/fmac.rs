//! Filter math accelerator: memory layout, filter configuration, the load
//! program that preloads the accelerator's buffers, and the polling
//! protocol that moves samples in and out.

pub mod command;
pub mod config;
pub mod driver;
pub mod layout;
pub mod model;
pub mod sample;
pub mod transfer;

pub use command::{Command, Control, Function};
pub use config::{Gain, IirConfig};
pub use driver::{Fir, Fmac, FmacExt, Iir, Poll, Setup};
pub use layout::{MemoryMap, Region};
pub use sample::Sample;
pub use transfer::{Action, FmacError, Outcome, Reply, Status, Transfer};
