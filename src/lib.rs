//! A memory-allocation laboratory: a catalog of allocation strategies, the
//! handles that own one live allocation each, the ordered set of live handles,
//! the operator's selection rules, and the teardown protocol of stack-resident
//! workers.

pub mod buffers;
pub mod region;
pub mod catalog;
pub mod handle;
pub mod active;
pub mod selection;
pub mod worker;
