//! The fragments of pages that the API serves.
pub mod html;
