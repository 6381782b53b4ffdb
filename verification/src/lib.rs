//! Query planning and row conversion for the stock-history grid backend.

pub mod calendar;
pub mod decimal;
pub mod filter_laws;
pub mod placeholder_laws;
pub mod plan_laws;
pub mod laws;
pub mod model;
pub mod repository;
pub mod ssrm;
pub mod text;
