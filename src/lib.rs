//! A flow-based programming runtime: components exchange information
//! packets over bounded edges, park on wake-ups, and answer control signals.

pub mod edge;
pub mod wakeup;
pub mod signal;
pub mod ports;
pub mod text;
pub mod component;
pub mod components;
pub mod registry;
pub mod protocol;
pub mod host;
