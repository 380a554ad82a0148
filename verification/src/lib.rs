//! Verified core of the Nimbus elasticity-detecting congestion controller:
//! the mode enums and their parsers, and the integer and mode-switching
//! decisions that the controller takes on each report.

pub mod modes;
pub mod spectrum;
pub mod drop_choice;
pub mod control;
pub mod history;
pub mod report;
