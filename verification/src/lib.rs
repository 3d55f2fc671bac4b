//! Task due dates and the MCP request layer of taskbook, with their contracts.

pub mod text;
pub mod calendar;
pub mod due;
pub mod edit;
pub mod json;
pub mod listing;
pub mod rpc;
pub mod schema;
pub mod task;
pub mod tools;
