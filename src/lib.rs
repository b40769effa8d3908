//! Hardware-profile management for a desktop virtualization product: profile
//! and container records, the decisions of the configuration store, the
//! substitution engine that swaps the hypervisor executable for one VM run and
//! restores it afterwards, the VM control verbs, and the controller that
//! sequences one lifecycle operation.
pub mod control;
pub mod engine;
pub mod layout;
pub mod model;
pub mod operation;
pub mod scan;
pub mod store;
