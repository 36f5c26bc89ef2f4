//! Concurrent multi-file HTTP download coordination: the shared transfer
//! ledger, the per-job download state machine, progress reporting and job
//! planning. Network, file and terminal I/O are performed by the caller.
pub mod download;
pub mod ledger;
pub mod plan;
pub mod report;
pub mod stats;
