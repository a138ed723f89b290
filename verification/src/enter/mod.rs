//! The ENTER path: roles, results, and the life of a parked request.

pub mod arbiter;
pub mod completion;
pub mod handoff;
pub mod irp;
pub mod ownership;
pub mod result;
pub mod role;
pub mod runtime;
pub mod schedule;
pub mod slot;
pub mod storage;
pub mod terminal;
pub mod timer;
pub mod wake;
