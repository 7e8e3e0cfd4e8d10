//! Command pipeline of a laptop peripheral control panel: a FIFO of helper
//! commands run one at a time, a privilege-escalation ladder for each run, and
//! the interpretation of the helper's replies into device state.
pub mod text;
pub mod color;
pub mod runner;
pub mod device;
pub mod panel;
pub mod commands;
