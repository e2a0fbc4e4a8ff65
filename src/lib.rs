//! A resource-lifetime and command-sequencing layer for a native GPU device.
//!
//! The library keeps the bookkeeping that makes native GPU work safe and proves it
//! correct: a registry of devices and resources with shared ownership and weak device
//! back-references (a resource is released once, by its last handle, and only while its
//! device lives), the state machine of command buffers and their mutually exclusive
//! passes, the host-mapping discipline of transfer buffers, and the stable native
//! encodings of formats and creation parameters. Native calls themselves are made by
//! the caller, who hands their outcome (a handle, zero on failure, or a success flag,
//! with the platform's error text) to the functions here.

pub mod commands;
pub mod error;
pub mod formats;
pub mod info;
pub mod registry;
pub mod resources;
pub mod transfer;
