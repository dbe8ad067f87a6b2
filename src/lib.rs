//! Native control layer of a desktop monitor: the secret vault, the persistent
//! cache mirror, and the supervisor of the local worker process.
pub mod text;
pub mod keys;
pub mod vault;
pub mod cache;
pub mod supervisor;
pub mod relay;
