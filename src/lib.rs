//! Lifecycle management for a bundled backend process: finding the resource
//! directory, checking and recording a launch, polling for readiness, and
//! shutting the process down again.
pub mod paths;
pub mod locator;
pub mod launcher;
pub mod slot;
pub mod readiness;
pub mod scan;
pub mod inspect;
