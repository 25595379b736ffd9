//! Lifecycle tracking for a single train journey: scheduling a route with an
//! expected timetable, recording check-ins as the train reaches each stop, and
//! resetting to the idle state once the final stop is reached.

pub mod journey;
pub mod laws;
pub mod manager;
