//! Recurring-chore scheduling library.
//!
//! The crate models chore schedules (six recurrence kinds), computes the most
//! recent and the next due instant of a schedule in a configured time zone,
//! derives the status of a chore (due, alerting, completed, inactive), and
//! parses and formats the compact "1, 4-7, 15" day-of-month notation used to
//! configure day-based schedules.

pub mod calendar;
pub mod config;
pub mod schedule;
pub mod search;
pub mod seed;
pub mod daylist;
pub mod db;
pub mod form;
pub mod strutil;
pub mod task;
pub mod tasks;
pub mod timeparse;
pub mod zone;
