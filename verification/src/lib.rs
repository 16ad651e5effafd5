//! A single-list todo application's core: the task store, the four operations
//! on it, the synchronisation between a page and its store, and what a row of
//! the list shows.

pub mod components;
pub mod error;
pub mod laws;
pub mod models;
pub mod pages;
pub mod server_functions;
pub mod store;
