//! The runtime services the annotation model leans on: the clock that
//! stamps new annotations, and shared handles to content.

use vstd::prelude::*;
use std::rc::Rc;
use chrono::DateTime;
use chrono::Utc;

verus! {

/// A point in time, as seconds and subsecond nanoseconds since the Unix
/// epoch.
#[derive(Debug, Clone, Copy, PartialEq, Eq, Structural)]
pub struct Timestamp {
    pub secs: i64,
    pub nanos: u32,
}

/// Relies on chrono::Utc::now for the time an annotation is created.
/// Nothing is assumed of the value: it depends on the system clock.
#[verifier::external_body]
pub(crate) fn now() -> Timestamp {
    let t: DateTime<Utc> = Utc::now();
    Timestamp { secs: t.timestamp(), nanos: t.timestamp_subsec_nanos() }
}

/// Relies on Rc::clone: the new handle refers to the same value as the old.
#[verifier::external_body]
pub(crate) fn rc_clone<T>(rc: &Rc<T>) -> (res: Rc<T>)
    ensures
        res == *rc,
{
    Rc::clone(rc)
}

} // verus!
