//! Lifecycle management of the BIOS/GRUB boot component: the content
//! metadata that decides whether an update is due, and the decisions of
//! install, update, adoption and validation, driven step by step by a host
//! that performs the probes, the package queries and the installer runs.

pub mod model;
pub mod paths;
pub mod bios;
pub mod record;
pub mod laws;
