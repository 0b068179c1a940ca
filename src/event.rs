use vstd::prelude::*;

use std::time::Duration;

verus! {

/// A message posted on the system event loop: it carries a duration.
#[derive(Copy, Clone, Debug)]
pub struct EventLoopMessage(pub Duration);

impl EventLoopMessage {
    pub fn new(duration: Duration) -> (r: Self)
        ensures
            r.0 == duration,
    {
        Self(duration)
    }
}

} // verus!
