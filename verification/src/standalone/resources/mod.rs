//! The single-route server's handlers.
pub mod book;
pub mod user;
