//! A task-manager core: ranks the processes of a refreshable system snapshot
//! by CPU usage, aggregates memory statistics, and sends kill signals.

pub mod ranking;
pub mod stats;
pub mod snapshot;
