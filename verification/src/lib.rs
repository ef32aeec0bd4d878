//! Verified ThingsBoard support for thin-edge.io.
pub mod text;
pub mod topic;
pub mod transformer;
pub mod schema;
pub mod bridge;
pub mod converter;
pub mod mapper;
pub mod connect;
