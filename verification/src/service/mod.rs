//! The Windows service: its installation, and its control while it runs.
pub mod host;
pub mod installer;
