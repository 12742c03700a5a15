//! Identity, reference aggregation and introspection of ECMAScript output chunks.
pub mod chunk;
pub mod content;
pub mod contexts;
pub mod error;
pub mod ident;
pub mod laws;
pub mod logout;
pub mod unique;
