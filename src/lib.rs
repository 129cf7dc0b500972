//! Combines independently built request handlers behind one handler that routes
//! each request to the first handler whose base path prefixes the request's path.

pub mod routing;
pub mod listing;
pub mod composite;
