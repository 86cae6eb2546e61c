//! Annotates the method entries of a contract interface description with the
//! storage-slot conflicts that a static analysis reported for each method.

pub mod annotate;
pub mod loader;
pub mod record;
pub mod selector;
pub mod signature;
pub mod text;
