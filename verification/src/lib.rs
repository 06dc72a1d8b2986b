//! Synthetic rows for a scan: one value per projected column and row, drawn from a seedable
//! generator under a set of tunables.

pub mod config;
pub mod datum;
pub mod fakes;
pub mod generator;
pub mod laws;
pub mod options;
pub mod row;
pub mod session;
pub mod stream;
