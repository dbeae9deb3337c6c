pub mod classify;
pub mod markers;
pub mod patch;
pub mod search;
