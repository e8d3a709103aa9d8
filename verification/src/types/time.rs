//! Points in time.

use vstd::prelude::*;
use crate::text::Duplicate;

verus! {

/// A point in time: seconds since 1970 in UTC, and the nanoseconds past them.
#[derive(Debug, PartialEq, Eq)]
pub struct Timestamp {
    pub secs: i64,
    pub nanos: u32,
}

/// What a [`Timestamp`] stands for.
#[verifier::ext_equal]
pub struct TimestampView {
    pub secs: i64,
    pub nanos: u32,
}

impl View for Timestamp {
    type V = TimestampView;

    open spec fn view(&self) -> TimestampView {
        TimestampView {
            secs: self.secs,
            nanos: self.nanos,
        }
    }
}

impl DeepView for Timestamp {
    type V = TimestampView;

    open spec fn deep_view(&self) -> TimestampView {
        self@
    }
}

impl Duplicate for Timestamp {
    fn dup(&self) -> (r: Self) {
        Timestamp {
            secs: self.secs,
            nanos: self.nanos,
        }
    }
}

impl Clone for Timestamp {
    fn clone(&self) -> (r: Self)
        ensures
            r@ == self@,
    {
        self.dup()
    }
}

} // verus!
