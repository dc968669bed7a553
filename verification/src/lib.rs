//! Schema model and validating traversal for a canonical ("strict") binary
//! encoding: every value of a declared type has exactly one byte encoding,
//! and the traversal protocol proves, with exact location reporting, that an
//! encoder or decoder visits exactly the structure its declared type promises.

pub mod ast;
pub mod iter;
pub mod path;
pub mod render;
pub mod schema;
pub mod stl;
