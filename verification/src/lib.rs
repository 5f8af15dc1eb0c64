//! Controller library for a runit-style process-supervision tree.
//!
//! A service is defined by a directory under a service directory (`svdir`)
//! and activated by a symlink of the same name in an active directory
//! (`lndir`) that a supervisor daemon watches.  This crate holds the verified
//! core: path resolution, the enable/disable/signal/stop lifecycle decisions,
//! and status inspection of the supervisor's on-disk state files.  The thin
//! unverified shell around it performs the actual filesystem probes and
//! actions and feeds their outcomes back in as plain values.

pub mod configuration;
pub mod errors;
pub mod service;
pub mod servicedir;
pub mod utils;
