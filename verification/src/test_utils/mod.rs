//! Helpers of the integration tests: test names, paths of the repository,
//! the free port and the start and stop of a test server.
pub mod format;
pub mod path;
pub mod port;
pub mod spawn;
