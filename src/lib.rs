//! An airfield service pipeline: planes arrive one per interval and contend
//! for runways and hangars under a non-blocking admission rule.
//!
//! - `plane`: the unit of work and its timings.
//! - `service`: the phase machine that one plane goes through, with the
//!   permits that each phase holds.
//! - `airfield`: occupancy accounting for a whole run, with capacity laws.
//! - `generator`: bookkeeping of the producer of arrivals.
//! - `report`: the collector of completions and the metrics of a run.

pub mod airfield;
pub mod generator;
pub mod plane;
pub mod report;
pub mod service;
