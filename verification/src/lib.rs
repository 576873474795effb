//! Addressing scheme and data shapes of a versioned policy store, together
//! with the single-active-version lifecycle of the policies it holds.

pub mod decimal;
pub mod endpoint;
pub mod messages;
pub mod metadata;
pub mod method;
pub mod registry;
pub mod routes;
pub mod segment;
pub mod service;
pub mod state;
pub mod template;
