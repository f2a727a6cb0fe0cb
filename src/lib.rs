//! A cached snapshot of host resource usage: when to sample the host again,
//! how a sampling pass becomes a snapshot, and how the stored snapshot is
//! replaced only when every reading succeeded.

pub mod snapshot;
pub mod store;
