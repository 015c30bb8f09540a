//! Classification, bookkeeping and screen logic for reloading and resetting
//! Pi agent sessions that Herdr manages.

pub mod text;
pub mod herdr;
pub mod pi;
pub mod reset;
pub mod tui;
pub mod render;
