//! Reboots a router through its web administration page: the settings that a
//! run needs, the fixed login-and-reboot sequence as a state machine that a
//! browser driver steps through, and what a run's outcome means for the
//! process.
pub mod config;
pub mod workflow;
pub mod proofs;
pub mod runner;
