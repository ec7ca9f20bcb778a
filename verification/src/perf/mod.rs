//! Performance counters and their report.

pub mod counters;
pub mod heap;
pub mod observe;
pub mod report;
