//! The addresses of the catalogue's endpoints and the query strings that
//! filter them.

pub mod assets;
pub mod author;
pub mod categories;
pub mod files;
pub mod info;
