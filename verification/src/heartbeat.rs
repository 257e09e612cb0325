use vstd::prelude::*;

use crate::util::{lerp, lerp_duty};

verus! {

/// The duty cycle of the heartbeat LED at its brightest.
pub const MAX_PWM_POWER: u16 = 0x6000;

/// Steps in one swell of the heartbeat, up or down.
pub const STEP: u16 = 64;

/// The duty cycles of one beat of the heartbeat LED: the swell up from
/// dark, then the swell down from the brightest.
pub fn cycle() -> (duties: Vec<u16>)
    ensures
        duties@.len() == 2 * STEP,
        forall|x: int|
            0 <= x < STEP ==> #[trigger] duties@[x] == lerp_duty(0, MAX_PWM_POWER, STEP, x),
        forall|x: int|
            0 <= x < STEP ==> #[trigger] duties@[STEP + x] == lerp_duty(MAX_PWM_POWER, 0, STEP, x),
{
    let mut duties = lerp(0, MAX_PWM_POWER, STEP);
    let mut down = lerp(MAX_PWM_POWER, 0, STEP);
    let ghost up = duties@;
    let ghost fall = down@;
    duties.append(&mut down);
    assert(duties@ == up + fall);
    assert forall|x: int| 0 <= x < STEP implies #[trigger] duties@[STEP + x] == lerp_duty(
        MAX_PWM_POWER,
        0,
        STEP,
        x,
    ) by {
        assert(duties@[STEP + x] == fall[x]);
    }
    duties
}

} // verus!
