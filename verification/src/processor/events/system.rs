use vstd::prelude::*;

use crate::key::{Action, Control, Edge, LayerIndex};
use crate::processor::Event;

verus! {

/// Watches the events for commands to the device itself.
pub struct SystemProcessor {
    u2f_activity_pin: u8,
}

/// Whether an event asks for the jump into the bootloader: the command,
/// on its rising edge.
pub open spec fn asks_for_bootloader<L: LayerIndex>(event: Event<L>) -> bool {
    event.edge == Edge::Rising && event.action == Action::<L>::Control(Control::U2FBootloaderJump)
}

impl SystemProcessor {
    #[verifier::type_invariant]
    spec fn pin_fits_a_mask(self) -> bool {
        self.u2f_activity_pin < 32
    }

    /// The pin of the LED that shows the activity of the bootloader.
    pub closed spec fn u2f_activity_pin(self) -> u8 {
        self.u2f_activity_pin
    }

    /// `u2f_activity_pin` is the number of a pin, which a mask of 32 bits
    /// can name.
    pub fn new(u2f_activity_pin: u8) -> (processor: Self)
        requires
            u2f_activity_pin < 32,
        ensures
            processor.u2f_activity_pin() == u2f_activity_pin,
    {
        SystemProcessor { u2f_activity_pin }
    }

    /// Looks for the command to jump into the bootloader. Where an event
    /// asks for it, gives the pin mask to hand to the boot ROM: the bit of
    /// the activity pin.
    pub fn bootloader_request<L: LayerIndex>(&self, events: &Vec<Event<L>>) -> (mask: Option<u32>)
        ensures
            mask is Some <==> exists|n: int|
                0 <= n < events@.len() && asks_for_bootloader(#[trigger] events@[n]),
            mask is Some ==> mask->0 == 1u32 << (self.u2f_activity_pin() as u32),
    {
        proof {
            use_type_invariant(self);
        }
        let mut n: usize = 0;
        while n < events.len()
            invariant
                n <= events.len(),
                self.u2f_activity_pin() < 32,
                forall|m: int| 0 <= m < n ==> !asks_for_bootloader(#[trigger] events@[m]),
            decreases events.len() - n,
        {
            let event = events[n];
            match (event.edge, event.action) {
                (Edge::Rising, Action::Control(Control::U2FBootloaderJump)) => {
                    return Some(1u32 << (self.u2f_activity_pin as u32));
                },
                _ => {},
            }
            n += 1;
        }
        None
    }
}

} // verus!
