//! The data the application is about.

pub mod todo;
