//! Server metrics history: which series is read and over how many hours.

use vstd::prelude::*;

verus! {

/// What a metrics history request asks for.
pub struct MetricsQuery {
    pub metric_type: Option<String>,
    pub hours: Option<i32>,
}

/// The window read: 24 hours when none is asked for, kept between one hour
/// and a week.
pub open spec fn window_of(hours: Option<i32>) -> int {
    let h: int = match hours {
        Some(h) => h as int,
        None => 24,
    };
    if h > 168 { 168 } else if h < 1 { 1 } else { h }
}

impl MetricsQuery {
    pub fn window_hours(&self) -> (h: i32)
        ensures
            h == window_of(self.hours),
            1 <= h <= 168,
    {
        let h: i32 = match self.hours {
            Some(h) => h,
            None => 24,
        };
        if h > 168 {
            168
        } else if h < 1 {
            1
        } else {
            h
        }
    }

    /// The series read: the one asked for, else CPU.
    pub fn metric_kind(&self) -> (s: String)
        ensures
            s@ == match self.metric_type {
                Some(t) => t@,
                None => "cpu"@,
            },
    {
        match &self.metric_type {
            Some(t) => String::from_str(t.as_str()),
            None => String::from_str("cpu"),
        }
    }
}

} // verus!
