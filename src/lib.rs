//! Decides which scheduled meeting is in session right now, and builds the
//! link that joins it.

pub mod clock;
pub mod loader;
pub mod meeting;
pub mod select;
