//! Core of a restaurant point-of-sale backend.
//!
//! Three parts carry the weight: the sessions of logged-in users, which
//! expire; the numbers of the orders, which run from one on each day without
//! gaps; and the cash shifts, which collect what goes into and out of the
//! drawer and are closed against a count. What must hold of them is stated
//! in their contracts, and the laws that span several changes are proved
//! beside them.
//!
//! The store, the clock and the printers are outside. Commands take what was
//! read from them as plain values and hand back what is to be written.

pub mod error;
pub mod text;
pub mod dates;
pub mod state;
pub mod db;
pub mod auth;
pub mod reports_cash;
pub mod ledger;
pub mod orders;
pub mod receipts;
pub mod printer;
pub mod layout;
pub mod users;
pub mod products;
pub mod reports;
pub mod commands;
