//! Task orchestration core of an interactive platform explorer.

pub mod backend;
pub mod cli;
pub mod event;
pub mod funding;
pub mod identifier;
pub mod identity;
pub mod keys;
pub mod multiplexer;
pub mod state;
pub mod strategy;
pub mod task;
pub mod ui;
pub mod units;
