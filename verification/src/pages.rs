//! The pages of the application.

pub mod home;
