//! The values shared with the provider across the control interface.
//!
//! The statuses are Windows' own. The other numbers, codes, sizes and layouts are
//! defined here and nowhere else: they were compared with no other definition of
//! the interface, and a provider has to be built from them.

pub mod boot;
pub mod bytes;
pub mod control;
pub mod enter;
pub mod features;
pub mod identity;
pub mod status;
