//! PIN authentication helpers.

pub mod attempts;
