//! A book-lending service: users with access levels borrow books for a
//! length of time. The request handlers, the access rules, the naming
//! conventions of the actor messages and the test helpers are verified here;
//! the HTTP server, the database connection and the process plumbing live
//! around this library.

pub mod http;
pub mod logging;
pub mod sql;
pub mod codegen;
pub mod entities;
pub mod server;
pub mod standalone;
pub mod text;
pub mod test_utils;
