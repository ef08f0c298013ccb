//! Export of recorded training sessions from a fitness-tracking service:
//! the decisions of a run (log in, list the sessions of a date range, hand
//! out one download per exercise), the addresses it requests, and the file
//! names under which the sessions are stored.

pub mod auth;
pub mod catalog;
pub mod error;
pub mod format;
pub mod naming;
pub mod run;
pub mod time;
