use vstd::prelude::*;

use crate::key::{Action, Key, LayerIndex};
use crate::processor::{Event, EventsProcessor, Result};

verus! {

/// Puts one key in place of another in every event.
pub struct KeyReplaceProcessor {
    from: Key,
    to: Key,
}

impl KeyReplaceProcessor {
    /// The key that is replaced.
    pub closed spec fn from(self) -> Key {
        self.from
    }

    /// The key that takes its place.
    pub closed spec fn to(self) -> Key {
        self.to
    }

    /// An event after the replacement: one that stands for the key `from`
    /// stands for `to`, any other is as it was.
    pub open spec fn replaced<L: LayerIndex>(self, event: Event<L>) -> Event<L> {
        match event.action {
            Action::Key(key) => if key == self.from() {
                Event { action: Action::Key(self.to()), ..event }
            } else {
                event
            },
            _ => event,
        }
    }

    pub fn new(from: Key, to: Key) -> (processor: Self)
        ensures
            processor.from() == from,
            processor.to() == to,
    {
        KeyReplaceProcessor { from, to }
    }
}

impl<L: LayerIndex> EventsProcessor<L> for KeyReplaceProcessor {
    fn process(&mut self, events: &mut Vec<Event<L>>) -> (result: Result)
        ensures
            result is Ok,
            final(self).from() == old(self).from(),
            final(self).to() == old(self).to(),
            final(events)@.len() == old(events)@.len(),
            forall|n: int|
                0 <= n < old(events)@.len() ==> #[trigger] final(events)@[n] == old(
                    self,
                ).replaced(old(events)@[n]),
    {
        let mut n: usize = 0;
        while n < events.len()
            invariant
                n <= events.len(),
                events@.len() == old(events)@.len(),
                *self == *old(self),
                forall|m: int|
                    0 <= m < n ==> #[trigger] events@[m] == self.replaced(old(events)@[m]),
                forall|m: int| n <= m < events@.len() ==> #[trigger] events@[m] == old(events)@[m],
            decreases events.len() - n,
        {
            let event = events[n];
            match event.action {
                Action::Key(key) => {
                    if key == self.from {
                        events[n] = Event { action: Action::Key(self.to), ..event };
                    }
                },
                _ => {},
            }
            n += 1;
        }
        Ok(())
    }
}

} // verus!
