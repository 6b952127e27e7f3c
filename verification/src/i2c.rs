//! I2C bus: configuration, the initialisation program, the error taxonomy
//! and the decisions of a bus transaction.

pub mod bus;
pub mod config;
pub mod transaction;

pub use bus::{Command, Error, ErrorKind, I2c, I2cExt, NoAcknowledgeSource, SCLPin, SDAPin};
pub use config::Config;
pub use transaction::{Address, Transaction};
