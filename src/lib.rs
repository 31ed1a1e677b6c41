//! Measures how long merged change requests took to reach their target
//! branch: picks the origin commit of each request, subtracts timestamps,
//! and averages and splits the resulting durations for display.
pub mod api;
pub mod banner;
pub mod calculator;
pub mod color;
pub mod error;
pub mod report;
pub mod text;
pub mod time;
