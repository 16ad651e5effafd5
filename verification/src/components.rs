//! The parts that a page is composed of.

pub mod todo_item;
