//! Fetches recent events of one log group over a lookback window and
//! renders them as timestamped lines.
//!
//! The library holds the decisions of the tool: reading a duration such as
//! `2h`, turning it into a window of epoch milliseconds ending now, bounding
//! the number of events asked for, resolving configuration values from
//! ordered sources, and rendering each returned event as one line.
pub mod config;
pub mod duration;
pub mod query;
pub mod printer;
