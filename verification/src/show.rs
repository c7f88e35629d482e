//! The show catalogue: its rows, the queries that select them, and the
//! requests that ask for them.

pub mod api;
pub mod db;
pub mod model;
