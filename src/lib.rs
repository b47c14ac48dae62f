//! A URL shortener's core: short codes mapped to target URLs, the rules for
//! creating and resolving them, and an in-memory link store that enforces
//! unique codes.

pub mod code;
pub mod laws;
pub mod model;
pub mod service;
pub mod store;
