//! Commands of the single-session user administration.

pub mod user;
