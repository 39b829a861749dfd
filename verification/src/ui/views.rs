//! The screens.

pub mod contested_resources;
pub mod fetch_contract;
