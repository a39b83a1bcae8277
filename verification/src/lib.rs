//! Planning support for a trade-show conference: finding date mentions in
//! free text, ranking events by how soon they happen, and the decisions
//! around a remote conference search.

pub mod calendar;
pub mod dates;
pub mod models;
pub mod planner;
pub mod schema;
pub mod search;
pub mod text;
pub mod tools;
pub mod urgency;
