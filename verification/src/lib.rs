//! Strict decoding and in-memory migration of a build tool's configuration
//! document.

pub mod decode;
pub mod error;
pub mod laws;
pub mod locate;
pub mod migrate;
pub mod model;
pub mod pipeline;
pub mod schema;
pub mod section;
pub mod table;
pub mod text;
pub mod value;
