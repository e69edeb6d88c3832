//! The web front end's paths and the decisions its pages make.
pub mod api;
pub mod app;
