//! The endpoint descriptors, grouped by resource.

pub mod addons;
pub mod builds;
pub mod collaborators;
