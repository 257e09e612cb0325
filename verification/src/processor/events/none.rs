use vstd::prelude::*;

use crate::key::LayerIndex;
use crate::processor::{Event, EventsProcessor, Result};

verus! {

/// A processor that leaves the events as they are.
pub struct NoneProcessor {}

impl NoneProcessor {
    pub fn new() -> Self {
        NoneProcessor {  }
    }
}

impl<L: LayerIndex> EventsProcessor<L> for NoneProcessor {
    fn process(&mut self, events: &mut Vec<Event<L>>) -> (result: Result)
        ensures
            result is Ok,
            final(events)@ == old(events)@,
    {
        Ok(())
    }
}

} // verus!
