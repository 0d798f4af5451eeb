//! Users as the single-session administration keeps them.

pub mod auth;
pub mod crud;
pub mod model;
