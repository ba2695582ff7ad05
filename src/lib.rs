//! Keeps the object-path namespace that a storage daemon exposes on its
//! message bus in step with the pools, filesystems and block devices that its
//! storage engine owns.

pub mod errors;
pub mod actions;
pub mod registry;
pub mod paths;
pub mod engine;
pub mod identity;
pub mod api;
pub mod util;
