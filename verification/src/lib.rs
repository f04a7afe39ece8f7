//! Named Git identity profiles: a store with uniqueness rules, the decisions
//! behind listing, adding and switching, and the table that shows them.

pub mod text;
pub mod profile;
pub mod store;
pub mod gateway;
pub mod presenter;
pub mod commands;
