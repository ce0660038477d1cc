//! The built-in components.

pub mod filereader;
pub mod splitlines;
pub mod trim;
