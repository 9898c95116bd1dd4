//! A full-screen session-action launcher: the verified core that turns a
//! declarative button list into per-monitor overlay windows and dispatches
//! the chosen action at most once.

pub mod grid;
pub mod geometry;
pub mod surface;
pub mod json;
pub mod layout;
pub mod dispatch;
pub mod paths;
