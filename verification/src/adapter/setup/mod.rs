//! Setting up a session, one effect at a time.

pub mod control_context;
pub mod entry;
pub mod layout;
pub mod native;
pub mod ownership;
pub mod scratch;
pub mod suffix;
