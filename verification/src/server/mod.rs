//! The server: its request handlers, their access rules, its routes, its
//! messages, its start and its database schema.
pub mod actor;
pub mod auth;
pub mod messages;
pub mod migrations;
pub mod resources;
pub mod routes;
pub mod setup;
