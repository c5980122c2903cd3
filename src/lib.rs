//! Reports for failures of the codec layer: each failure becomes one log
//! record, one error-counter increment and, where data was lost, one report of
//! the units that were dropped.

pub mod taxonomy;
pub mod report;
pub mod codecs;
pub mod laws;
