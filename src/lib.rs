//! A catalog of markdown skills and the line-delimited JSON-RPC dispatcher
//! that describes and serves them.

pub mod mcp;
pub mod model;
pub mod scan;
pub mod text;
