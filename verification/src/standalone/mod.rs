//! A smaller server with one route: a book looked up by its title.
pub mod entities;
pub mod messages;
pub mod migrations;
pub mod resources;
