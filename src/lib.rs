pub mod document;
pub mod laws;
pub mod title;
