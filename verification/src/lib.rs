//! Persistence bootstrap and cash-balance forecast for a small personal
//! finance store.
//!
//! The store module opens or creates the embedded SQLite file, applies the
//! schema and seeds one default account when none exists. The forecast
//! module reads the aggregate liquid balance and projects it forward day by
//! day. Monetary amounts are held as signed integer cent counts, so every
//! balance is cent-precise by construction.

pub mod date;
pub mod forecast;
pub mod store;
