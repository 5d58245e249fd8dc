//! Reconciliation core for PAM fingerprint authentication.
//!
//! Determines whether fingerprint login is enabled for the managed PAM
//! service stacks and prepares the privileged requests that toggle that
//! state, speaking the external helper's wire protocol: batched status
//! lines on stdout, exit codes for single-path checks, and
//! elevation-wrapped apply/remove invocations.

pub mod config;
pub mod helper;
pub mod lines;
pub mod model;
pub mod paths;
pub mod protocol;
pub mod status;
pub mod text;
pub mod util;
