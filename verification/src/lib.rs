//! The decision core of the fsring file-system driver.
//!
//! Everything here is free of kernel types: the modules hold the state
//! machines, lock and effect rules, plans and parsers that the driver's
//! marshalling layer executes. Each function states what it returns or changes
//! in its contract, and the laws that span functions are public proof
//! functions beside them.

pub mod adapter;
pub mod abi;
pub mod allowscan;
pub mod bits;
pub mod bootctx;
pub mod controldev;
pub mod effect;
pub mod enter;
pub mod grant;
pub mod lockrank;
pub mod pool;
pub mod session;
pub mod terminal;
pub mod volume;
