//! Usage analytics: the time window and the width of the series buckets.
use vstd::prelude::*;

use crate::http::{is_error, ApiError};

verus! {

/// Query of `GET /api/analytics`.
#[derive(Debug, Clone, Copy)]
pub struct AnalyticsQueryParams {
    /// Window in hours: 1, 6, 24, 72 or 168; 24 otherwise.
    pub window: Option<i64>,
}

/// The windows that can be asked for, in hours.
pub open spec fn is_window(w: i64) -> bool {
    w == 1 || w == 6 || w == 24 || w == 72 || w == 168
}

/// The window of a request: one of the known windows, or 24 hours.
pub fn canonical_window(window: Option<i64>) -> (r: i64)
    ensures
        r == (match window {
            Some(w) => if is_window(w) {
                w
            } else {
                24
            },
            None => 24,
        }),
        is_window(r),
{
    match window {
        Some(w) => {
            if w == 1 || w == 6 || w == 24 || w == 72 || w == 168 {
                w
            } else {
                24
            }
        },
        None => 24,
    }
}

/// The bucket width, in minutes, of a window's time series.
pub open spec fn bucket_of(window_hours: i64) -> i64 {
    if window_hours == 1 {
        5
    } else if window_hours == 6 {
        15
    } else if window_hours == 24 {
        60
    } else if window_hours == 72 {
        180
    } else {
        360
    }
}

/// Chooses a bucket width (in minutes) for a window.
pub fn bucket_minutes(window_hours: i64) -> (r: i64)
    ensures
        r == bucket_of(window_hours),
{
    if window_hours == 1 {
        5
    } else if window_hours == 6 {
        15
    } else if window_hours == 24 {
        60
    } else if window_hours == 72 {
        180
    } else {
        360
    }
}

/// The window and bucket width of a request.
pub fn analytics_plan(params: AnalyticsQueryParams) -> (r: (i64, i64))
    ensures
        r.0 == canonical_window_spec(params.window),
        r.1 == bucket_of(r.0),
{
    let w = canonical_window(params.window);
    (w, bucket_minutes(w))
}

/// The window of a request, as values.
pub open spec fn canonical_window_spec(window: Option<i64>) -> i64 {
    match window {
        Some(w) => if is_window(w) {
            w
        } else {
            24
        },
        None => 24,
    }
}

/// The answer when the summary could not be read.
pub fn analytics_failed() -> (e: ApiError)
    ensures
        is_error(e, 500, "Failed to fetch analytics"@, false),
{
    ApiError::text(500, "Failed to fetch analytics")
}

} // verus!
