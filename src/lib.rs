//! State and data handling of a small electronics-inventory manager: parts,
//! stock levels and project bills of materials, with per-screen key routing.
//!
//! The screens never reach the database themselves. A key handler changes
//! its screen's state and returns a request: something to load, or the
//! parameters of a statement to run. The caller carries the request out and
//! hands the rows it read back through the `fetch_*` functions, which turn
//! column values into the library's records.

pub mod app;
pub mod keys;
pub mod parts;
pub mod parts_view;
pub mod projects;
pub mod projects_view;
pub mod sql;
pub mod stock;
pub mod stock_view;
pub mod tables;
pub mod text;
pub mod utils;
