//! Seat-availability resolution for a bus booking service, with the
//! record types, identifier parsing and access-control decisions around it.

pub mod auth;
pub mod db;
pub mod models;
pub mod object_id;
pub mod seats;
