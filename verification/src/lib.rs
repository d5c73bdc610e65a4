//! Safe, verified marshaling layer over the UEFI boot and runtime service tables.

pub mod boot_services;
pub mod console;
pub mod negotiation;
pub mod pointers;
pub mod protocols;
pub mod runtime;
pub mod runtime_services;
pub mod strings;
pub mod system_table;
pub mod types;
