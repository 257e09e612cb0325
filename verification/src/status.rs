use vstd::prelude::*;

verus! {

/// The activity LED is not set more often than this.
pub const REMOTE_ACTIVITY_UPDATE_PERIOD_TICK: u64 = 5_000;

/// The activity LED keeps blinking this long after the last activity.
pub const REMOTE_ACTIVITY_DELAY_PERIOD_TICK: u64 = 300_000;

/// Updates in one blink of the activity LED.
pub const BLINK_UPDATES: u16 = 12;

/// The state of the status LEDs as a plain value.
pub struct StatusState {
    /// The level of the activity LED; the LED is lit while the level is
    /// low.
    pub remote_activity_led_high: bool,
    pub remote_activity_last_update_tick: u64,
    pub remote_activity_last_active_tick: u64,
    /// The pin of the LED that shows the activity of the bootloader.
    pub u2f_activity_led_pin: u8,
    pub counter: u16,
}

impl StatusState {
    /// Whether an update at `now_tick` comes too soon after the last.
    pub open spec fn too_soon(self, now_tick: u64) -> bool {
        now_tick < self.remote_activity_last_update_tick || now_tick
            - self.remote_activity_last_update_tick < REMOTE_ACTIVITY_UPDATE_PERIOD_TICK
    }

    /// The state after an update at `now_tick`. An update that comes too
    /// soon changes nothing. Otherwise the LED blinks while there is
    /// activity and for a while after, six updates lit and six dark, and is
    /// dark when there has been none for longer.
    pub open spec fn updated(self, active: bool, now_tick: u64) -> StatusState {
        if self.too_soon(now_tick) {
            self
        } else {
            let counter = self.counter.wrapping_add(1);
            let last_active = if active {
                now_tick
            } else {
                self.remote_activity_last_active_tick
            };
            let recent = now_tick >= last_active && now_tick - last_active
                < REMOTE_ACTIVITY_DELAY_PERIOD_TICK;
            StatusState {
                remote_activity_led_high: if active || recent {
                    !(counter % BLINK_UPDATES < BLINK_UPDATES / 2)
                } else {
                    true
                },
                remote_activity_last_update_tick: now_tick,
                remote_activity_last_active_tick: last_active,
                u2f_activity_led_pin: self.u2f_activity_led_pin,
                counter,
            }
        }
    }
}

/// Decides the levels of the LEDs that show the state of the link.
pub struct StatusLED {
    remote_activity_led_high: bool,
    remote_activity_last_update_tick: u64,
    remote_activity_last_active_tick: u64,
    u2f_activity_led_pin: u8,
    counter: u16,
}

impl View for StatusLED {
    type V = StatusState;

    closed spec fn view(&self) -> StatusState {
        StatusState {
            remote_activity_led_high: self.remote_activity_led_high,
            remote_activity_last_update_tick: self.remote_activity_last_update_tick,
            remote_activity_last_active_tick: self.remote_activity_last_active_tick,
            u2f_activity_led_pin: self.u2f_activity_led_pin,
            counter: self.counter,
        }
    }
}

impl StatusLED {
    pub fn new(u2f_activity_led_pin: u8) -> (led: StatusLED)
        ensures
            led@ == (StatusState {
                remote_activity_led_high: true,
                remote_activity_last_update_tick: 0,
                remote_activity_last_active_tick: 0,
                u2f_activity_led_pin,
                counter: 0,
            }),
    {
        StatusLED {
            remote_activity_led_high: true,
            remote_activity_last_update_tick: 0,
            remote_activity_last_active_tick: 0,
            u2f_activity_led_pin,
            counter: 0,
        }
    }

    /// The level of the link LED: high while the link is up.
    pub fn set_remote_link(&self, enable: bool) -> (high: bool)
        ensures
            high == enable,
    {
        enable
    }

    /// Takes whether there is activity at `now_tick` and gives the level to
    /// set the activity LED to, or nothing where the update comes too soon.
    pub fn update_remote_activity(&mut self, active: bool, now_tick: u64) -> (high: Option<bool>)
        ensures
            final(self)@ == old(self)@.updated(active, now_tick),
            high == (if old(self)@.too_soon(now_tick) {
                None
            } else {
                Some(final(self)@.remote_activity_led_high)
            }),
    {
        if now_tick < self.remote_activity_last_update_tick || now_tick
            - self.remote_activity_last_update_tick < REMOTE_ACTIVITY_UPDATE_PERIOD_TICK {
            return None;
        }
        self.remote_activity_last_update_tick = now_tick;
        self.counter = self.counter.wrapping_add(1);
        if active {
            self.remote_activity_last_active_tick = now_tick;
        }
        let recent = now_tick >= self.remote_activity_last_active_tick && now_tick
            - self.remote_activity_last_active_tick < REMOTE_ACTIVITY_DELAY_PERIOD_TICK;
        self.remote_activity_led_high = if active || recent {
            !(self.counter % BLINK_UPDATES < BLINK_UPDATES / 2)
        } else {
            true
        };
        Some(self.remote_activity_led_high)
    }

    pub fn get_u2f_activity_led_pin(&self) -> (pin: u8)
        ensures
            pin == self@.u2f_activity_led_pin,
    {
        self.u2f_activity_led_pin
    }
}

} // verus!
