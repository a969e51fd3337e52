//! The single-route server's database schema, as its migrations, in order.
pub mod v1_create_book;
pub mod v2_create_user;
pub mod v3_create_lease;
