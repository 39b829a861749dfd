//! What the screens decide: the feedback they give on events, and the state
//! they keep for it. Nothing here draws.

pub mod form;
pub mod info;
pub mod latch;
pub mod list;
pub mod screen;
pub mod views;
