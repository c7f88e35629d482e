//! Verified core of a show catalogue and chat board: request decoding,
//! session counters, query plans, and the machines that drive every
//! conversation with the database.

pub mod api;
pub mod db;
pub mod model;
pub mod query;
pub mod session;
pub mod show;
pub mod talk;
pub mod text;
pub mod time;
