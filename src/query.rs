//! The single bounded query: its time window and its event limit.
use vstd::prelude::*;
use crate::duration::{duration_millis, parse_duration, DurationError};

verus! {

/// Largest number of events that one page of the log service returns.
pub const MAX_LOG_LIMIT: i32 = 10_000;

/// The number of events to ask for: the request, bounded by one page.
pub fn effective_limit(requested: i32) -> (r: i32)
    ensures
        requested >= MAX_LOG_LIMIT ==> r == MAX_LOG_LIMIT,
        requested < MAX_LOG_LIMIT ==> r == requested,
{
    if requested < MAX_LOG_LIMIT {
        requested
    } else {
        MAX_LOG_LIMIT
    }
}

/// A span of epoch milliseconds, ending at the moment it was computed.
#[derive(Debug, Clone, Copy, PartialEq, Eq, Structural)]
pub struct TimeWindow {
    pub start_millis: i64,
    pub end_millis: i64,
}

/// The window that ends at `now` and reaches `lookback` milliseconds back;
/// `None` when its start does not fit in an `i64`.
pub fn time_window(now: i64, lookback: i64) -> (r: Option<TimeWindow>)
    ensures
        fits_window(now as int, lookback as int) ==> r == Some(
            TimeWindow { start_millis: (now - lookback) as i64, end_millis: now },
        ),
        !fits_window(now as int, lookback as int) ==> r is None,
        now >= 0 && lookback >= 0 ==> r is Some,
        lookback >= 0 && r is Some ==> r.unwrap().start_millis <= r.unwrap().end_millis,
{
    match now.checked_sub(lookback) {
        Some(start) => Some(TimeWindow { start_millis: start, end_millis: now }),
        None => None,
    }
}

pub open spec fn fits_window(now: int, lookback: int) -> bool {
    i64::MIN <= now - lookback && now - lookback <= i64::MAX
}

/// Why no query could be planned.
#[derive(Debug, Clone, Copy, PartialEq, Eq, Structural)]
pub enum PlanError {
    /// The lookback expression was refused.
    Duration(DurationError),
    /// The window's start lies outside the range of `i64`.
    WindowOutOfRange,
}

/// What the one remote query asks for.
pub struct QueryPlan {
    pub log_group: String,
    pub window: TimeWindow,
    pub limit: i32,
}

/// The settings of one run.
pub struct RunConfig {
    pub region: String,
    pub credential_profile: String,
    pub log_group_name: String,
    pub lookback_expression: String,
    pub result_limit: i32,
}

/// The query that a lookback expression and a requested limit call for at
/// the moment `now`.
pub open spec fn plan_of(lookback: Seq<char>, requested: int, now: int) -> Result<(int, int, int), PlanError> {
    match duration_millis(lookback) {
        Err(e) => Err(PlanError::Duration(e)),
        Ok(ms) => if fits_window(now, ms) {
            Ok((now - ms, now, if requested < MAX_LOG_LIMIT { requested } else { MAX_LOG_LIMIT as int }))
        } else {
            Err(PlanError::WindowOutOfRange)
        },
    }
}

impl RunConfig {
    /// Plans the query of this run at the moment `now_millis`: the window
    /// ends there and reaches back by the lookback expression, and the limit
    /// is the requested one bounded by one page.
    pub fn plan(&self, now_millis: i64) -> (r: Result<QueryPlan, PlanError>)
        ensures
            match plan_of(self.lookback_expression@, self.result_limit as int, now_millis as int) {
                Ok((start, end, limit)) => r is Ok && r->Ok_0.log_group@ == self.log_group_name@
                    && r->Ok_0.window.start_millis == start && r->Ok_0.window.end_millis == end
                    && r->Ok_0.limit == limit,
                Err(e) => r is Err && r->Err_0 == e,
            },
    {
        let lookback = match parse_duration(self.lookback_expression.as_str()) {
            Ok(ms) => ms,
            Err(e) => return Err(PlanError::Duration(e)),
        };
        let window = match time_window(now_millis, lookback) {
            Some(w) => w,
            None => return Err(PlanError::WindowOutOfRange),
        };
        Ok(QueryPlan {
            log_group: self.log_group_name.clone(),
            window,
            limit: effective_limit(self.result_limit),
        })
    }
}

} // verus!
