//! The current moment and today's date.
use vstd::prelude::*;
use crate::clock::local_now;
use crate::moment::{Date, Moment};

verus! {

/// The current local moment.
pub fn now() -> (r: Moment)
    ensures
        r.wf(),
        r.secs >= 0,
{
    local_now()
}

/// Today's local date (no time of day).
pub fn today() -> (r: Date)
    ensures
        exists|now: Moment| now.wf() && now.secs >= 0 && r == #[trigger] now.date_spec(),
{
    let now = local_now();
    now.date()
}

} // verus!
