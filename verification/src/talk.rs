//! The chat board: its rows, the conversations with the database that read
//! and change them, and the requests that ask for them.

pub mod api;
pub mod db;
pub mod model;
