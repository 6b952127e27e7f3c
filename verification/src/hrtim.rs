//! High-resolution timer: external event inputs.

pub mod control;
pub mod external_event;
