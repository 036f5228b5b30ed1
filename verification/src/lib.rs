//! Teamder: verified domain logic of the team-matching platform.
pub mod error;
pub mod text;
pub mod clock;
pub mod skills;
pub mod models;
pub mod api;
