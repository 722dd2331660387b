//! A URL shortener's core: short-code generation, the mapping store and the
//! rules by which the two endpoints answer, each with a proved contract.

pub mod code;
pub mod laws;
pub mod response;
pub mod schema;
pub mod service;
pub mod store;
