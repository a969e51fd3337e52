//! The server's database schema, as the migrations that build it, in order.
pub mod v1_create_book;
pub mod v2_create_user;
pub mod v3_create_lease;
pub mod v4_auth;
