use vstd::prelude::*;

use crate::key::{Action, Control, Edge, LayerIndex};
use crate::processor::Event;

verus! {

/// The brightness that the renderer never goes beyond: more draws too much
/// power for the board.
pub const LED_MAX_BRIGHTNESS: u8 = 28;

pub const FRAME_TIME_MIN_MICROS: u64 = 1_000;

pub const FRAME_TIME_DEFAULT_MICROS: u64 = 20_000;

pub const FRAME_TIME_MAX_MICROS: u64 = 1_000_000;

/// The brightness of a new processor.
pub const BRIGHTNESS_DEFAULT: u8 = 255;

/// By how much one command changes the brightness.
pub const BRIGHTNESS_STEP: u8 = 16;

/// How many animations there are.
pub const ANIMATION_COUNT: usize = 4;

/// The colour of one LED.
#[derive(Clone, Copy, Debug, PartialEq, Eq, Structural)]
pub struct Color {
    pub r: u8,
    pub g: u8,
    pub b: u8,
}

impl Color {
    pub open spec fn black() -> Color {
        Color { r: 0, g: 0, b: 0 }
    }

    pub open spec fn white() -> Color {
        Color { r: 255, g: 255, b: 255 }
    }

    /// The colour at a brightness: every channel times `level + 1`, in
    /// 256ths, rounded down.
    pub open spec fn dimmed(self, level: u8) -> Color {
        Color {
            r: dimmed_channel(self.r, level),
            g: dimmed_channel(self.g, level),
            b: dimmed_channel(self.b, level),
        }
    }
}

/// A channel at a brightness.
pub open spec fn dimmed_channel(channel: u8, level: u8) -> u8 {
    (channel * (level + 1) / 256) as u8
}

/// A frame at a brightness.
pub open spec fn dimmed_frame(frame: Seq<Color>, level: u8) -> Seq<Color> {
    Seq::new(frame.len(), |i: int| frame[i].dimmed(level))
}

/// Calls `smart_leds::brightness` on the colours of a frame and gathers
/// what its iterator yields. By the source of `smart_leds` the iterator
/// yields one colour for each colour it is given, with every channel
/// `c` turned into `c * (level + 1) / 256`, computed in sixteen bits.
#[verifier::external_body]
fn brightness(frame: &Vec<Color>, level: u8) -> (dimmed: Vec<Color>)
    ensures
        dimmed@ == dimmed_frame(frame@, level),
{
    smart_leds::brightness(
        frame.iter().map(|c| smart_leds::RGB8 { r: c.r, g: c.g, b: c.b }),
        level,
    ).map(|c| Color { r: c.r, g: c.g, b: c.b }).collect()
}

/// The colour wheel: from green over blue and red back to green as `rot`
/// runs through a byte.
pub open spec fn wheel_spec(rot: u8) -> Color {
    if rot < 85 {
        Color { r: 0, g: (255 - rot * 3) as u8, b: (rot * 3) as u8 }
    } else if rot < 170 {
        Color { r: ((rot - 85) * 3) as u8, g: 0, b: (255 - (rot - 85) * 3) as u8 }
    } else {
        Color { r: (255 - (rot - 170) * 3) as u8, g: ((rot - 170) * 3) as u8, b: 0 }
    }
}

/// A grey that swells up to its brightest at the middle of the byte and
/// down again.
pub open spec fn breathe_spec(t: u8) -> Color {
    let level = if t < 128 {
        t * 2
    } else {
        (255 - t) * 2
    };
    Color { r: level as u8, g: level as u8, b: level as u8 }
}

/// How far LED `i` of `count` lies along a span of `span` steps.
pub open spec fn spread(i: int, count: int, span: int) -> u8 {
    (i * span / count) as u8
}

pub fn wheel(rot: u8) -> (color: Color)
    ensures
        color == wheel_spec(rot),
{
    if rot < 85 {
        Color { r: 0, g: 255 - rot * 3, b: rot * 3 }
    } else if rot < 170 {
        let rot = rot - 85;
        Color { r: rot * 3, g: 0, b: 255 - rot * 3 }
    } else {
        let rot = rot - 170;
        Color { r: 255 - rot * 3, g: rot * 3, b: 0 }
    }
}

pub fn breathe(t: u8) -> (color: Color)
    ensures
        color == breathe_spec(t),
{
    let level = if t < 128 {
        t * 2
    } else {
        (255 - t) * 2
    };
    Color { r: level, g: level, b: level }
}

/// The clock of an animation: a tick counter and a phase, which both go
/// on by one with every frame and wrap.
#[derive(Clone, Copy, Debug, PartialEq, Eq, Structural)]
pub struct AnimationState {
    pub t: u64,
    pub n: u8,
}

impl AnimationState {
    pub open spec fn stepped(self) -> AnimationState {
        AnimationState { t: self.t.wrapping_add(1), n: self.n.wrapping_add(1) }
    }

    pub fn step(&mut self)
        ensures
            *final(self) == old(self).stepped(),
    {
        self.t = self.t.wrapping_add(1);
        self.n = self.n.wrapping_add(1);
    }
}

impl Default for AnimationState {
    fn default() -> (state: AnimationState)
        ensures
            state == (AnimationState { t: 0, n: 0 }),
    {
        AnimationState { t: 0, n: 0 }
    }
}

/// The animations, each with its clock.
#[derive(Clone, Copy, Debug, PartialEq, Eq, Structural)]
pub enum Animation {
    /// The colour wheel, spread once over the strip, turning.
    Wheel(AnimationState),
    /// A swell of grey that runs along the strip.
    Breathe(AnimationState),
    /// One lit LED that sweeps along the strip.
    Scan(AnimationState),
    /// All LEDs off.
    NoAnimation,
}

impl Animation {
    /// The animation one frame on.
    pub open spec fn stepped(self) -> Animation {
        match self {
            Animation::Wheel(state) => Animation::Wheel(state.stepped()),
            Animation::Breathe(state) => Animation::Breathe(state.stepped()),
            Animation::Scan(state) => Animation::Scan(state.stepped()),
            Animation::NoAnimation => Animation::NoAnimation,
        }
    }

    /// The colour of LED `i` of `count` at the present clock.
    pub open spec fn color_at(self, i: int, count: int) -> Color {
        match self {
            Animation::Wheel(state) => wheel_spec(state.n.wrapping_add(spread(i, count, 255))),
            Animation::Breathe(state) => breathe_spec(
                state.n.wrapping_add(spread(i, count, 128)),
            ),
            Animation::Scan(state) => if state.t % (count as u64) == i {
                Color::white()
            } else {
                Color::black()
            },
            Animation::NoAnimation => Color::black(),
        }
    }

    /// The frame of `count` LEDs at the present clock.
    pub open spec fn frame(self, count: nat) -> Seq<Color> {
        Seq::new(count, |i: int| self.color_at(i, count as int))
    }

    /// Moves the animation one frame on and gives that frame.
    pub fn next<const LED_COUNT: usize>(&mut self) -> (frame: Vec<Color>)
        ensures
            *final(self) == old(self).stepped(),
            frame@ == final(self).frame(LED_COUNT as nat),
    {
        match self {
            Animation::Wheel(state) => {
                state.step();
            },
            Animation::Breathe(state) => {
                state.step();
            },
            Animation::Scan(state) => {
                state.step();
            },
            Animation::NoAnimation => {},
        }
        let animation = *self;
        let mut frame: Vec<Color> = Vec::new();
        let mut i: usize = 0;
        while i < LED_COUNT
            invariant
                i <= LED_COUNT,
                frame@.len() == i,
                forall|k: int|
                    0 <= k < i ==> #[trigger] frame@[k] == animation.color_at(k, LED_COUNT as int),
            decreases LED_COUNT - i,
        {
            let color = match animation {
                Animation::Wheel(state) => wheel(
                    state.n.wrapping_add(spread_of(i, LED_COUNT, 255)),
                ),
                Animation::Breathe(state) => breathe(
                    state.n.wrapping_add(spread_of(i, LED_COUNT, 128)),
                ),
                Animation::Scan(state) => if state.t % (LED_COUNT as u64) == i as u64 {
                    Color { r: 255, g: 255, b: 255 }
                } else {
                    Color { r: 0, g: 0, b: 0 }
                },
                Animation::NoAnimation => Color { r: 0, g: 0, b: 0 },
            };
            frame.push(color);
            i += 1;
        }
        assert(frame@ =~= animation.frame(LED_COUNT as nat));
        frame
    }
}

fn spread_of(i: usize, count: usize, span: u8) -> (offset: u8)
    requires
        i < count,
    ensures
        offset == spread(i as int, count as int, span as int),
{
    assert(i * span <= u128::MAX) by (nonlinear_arith)
        requires
            0 <= i <= usize::MAX,
            0 <= span <= 255,
            usize::MAX <= u64::MAX,
    ;
    let scaled: u128 = i as u128 * span as u128;
    assert(scaled / (count as u128) <= 255) by (nonlinear_arith)
        requires
            scaled == i * span,
            0 <= i < count,
            span <= 255,
    ;
    (scaled / count as u128) as u8
}

/// The state of the processor as a plain value.
pub struct EngineState {
    pub animations: Seq<Animation>,
    pub index: usize,
    pub frame_time_micros: u64,
    pub brightness: u8,
    pub last_render_ticks: u64,
}

impl EngineState {
    /// There are four animations, the index names one of them, and the
    /// frame time is within its bounds.
    pub open spec fn wf(self) -> bool {
        &&& self.animations.len() == ANIMATION_COUNT
        &&& self.index < ANIMATION_COUNT
        &&& FRAME_TIME_MIN_MICROS <= self.frame_time_micros <= FRAME_TIME_MAX_MICROS
    }

    /// The state after a command.
    pub open spec fn controlled(self, control: Control) -> EngineState {
        match control {
            Control::RGBAnimationNext => EngineState {
                index: if self.index + 1 >= ANIMATION_COUNT {
                    0
                } else {
                    (self.index + 1) as usize
                },
                ..self
            },
            Control::RGBAnimationPrevious => EngineState {
                index: if self.index == 0 {
                    (ANIMATION_COUNT - 1) as usize
                } else {
                    (self.index - 1) as usize
                },
                ..self
            },
            Control::RGBSpeedUp => EngineState {
                frame_time_micros: if self.frame_time_micros / 2 < FRAME_TIME_MIN_MICROS {
                    FRAME_TIME_MIN_MICROS
                } else {
                    self.frame_time_micros / 2
                },
                ..self
            },
            Control::RGBSpeedDown => EngineState {
                frame_time_micros: if self.frame_time_micros * 2 > FRAME_TIME_MAX_MICROS {
                    FRAME_TIME_MAX_MICROS
                } else {
                    (self.frame_time_micros * 2) as u64
                },
                ..self
            },
            Control::RGBBrightnessUp => EngineState {
                brightness: self.brightness.saturating_add(BRIGHTNESS_STEP),
                ..self
            },
            Control::RGBBrightnessDown => EngineState {
                brightness: self.brightness.saturating_sub(BRIGHTNESS_STEP),
                ..self
            },
            _ => self,
        }
    }

    /// The state after an event: a command counts on its rising edge,
    /// nothing else counts.
    pub open spec fn handled<L: LayerIndex>(self, event: Event<L>) -> EngineState {
        match event.action {
            Action::Control(control) => if event.edge == Edge::Rising {
                self.controlled(control)
            } else {
                self
            },
            _ => self,
        }
    }

    /// The state after the first `count` of the events.
    pub open spec fn handled_all<L: LayerIndex>(
        self,
        events: Seq<Event<L>>,
        count: int,
    ) -> EngineState
        decreases count,
    {
        if count <= 0 {
            self
        } else {
            self.handled_all(events, count - 1).handled(events[count - 1])
        }
    }

    /// Whether a frame is due at `now_ticks`: a frame time or more has
    /// gone by since the last.
    pub open spec fn is_due(self, now_ticks: u64) -> bool {
        now_ticks >= self.last_render_ticks && now_ticks - self.last_render_ticks
            >= self.frame_time_micros
    }

    /// The state after a frame was rendered at `now_ticks`: the animation
    /// in use is one frame on.
    pub open spec fn rendered(self, now_ticks: u64) -> EngineState {
        EngineState {
            animations: self.animations.update(
                self.index as int,
                self.animations[self.index as int].stepped(),
            ),
            last_render_ticks: now_ticks,
            ..self
        }
    }

    /// The state after a poll at `now_ticks` with its events.
    pub open spec fn processed<L: LayerIndex>(
        self,
        events: Seq<Event<L>>,
        now_ticks: u64,
    ) -> EngineState {
        let handled = self.handled_all(events, events.len() as int);
        if handled.is_due(now_ticks) {
            handled.rendered(now_ticks)
        } else {
            handled
        }
    }

    /// The frame that a poll at `now_ticks` renders, if one is due: that of
    /// the animation in use, one frame on, at the brightness of the state.
    pub open spec fn frame_of<L: LayerIndex>(
        self,
        events: Seq<Event<L>>,
        now_ticks: u64,
        count: nat,
    ) -> Option<Seq<Color>> {
        let handled = self.handled_all(events, events.len() as int);
        if handled.is_due(now_ticks) {
            Some(
                dimmed_frame(
                    handled.animations[handled.index as int].stepped().frame(count),
                    handled.brightness,
                ),
            )
        } else {
            None
        }
    }
}

/// Every command leaves the index on an animation and the frame time
/// within its bounds.
pub proof fn lemma_controlled_wf(state: EngineState, control: Control)
    requires
        state.wf(),
    ensures
        state.controlled(control).wf(),
{
}

/// Going to the next animation as many times as there are animations comes
/// back to the animation it started from.
pub proof fn lemma_next_animation_cycles(state: EngineState)
    requires
        state.wf(),
    ensures
        state.controlled(Control::RGBAnimationNext).controlled(
            Control::RGBAnimationNext,
        ).controlled(Control::RGBAnimationNext).controlled(Control::RGBAnimationNext).index
            == state.index,
        state.controlled(Control::RGBAnimationNext).controlled(
            Control::RGBAnimationPrevious,
        ).index == state.index,
{
}

/// Selects and paces the animations of the LED strip by the commands among
/// the events.
pub struct RGBProcessor<const LED_COUNT: usize> {
    animations: [Animation; 4],
    animation_idx: usize,
    last_render_ticks: u64,
    frame_time_micros: u64,
    brightness: u8,
}

impl<const LED_COUNT: usize> View for RGBProcessor<LED_COUNT> {
    type V = EngineState;

    closed spec fn view(&self) -> EngineState {
        EngineState {
            animations: self.animations@,
            index: self.animation_idx,
            frame_time_micros: self.frame_time_micros,
            brightness: self.brightness,
            last_render_ticks: self.last_render_ticks,
        }
    }
}

impl<const LED_COUNT: usize> RGBProcessor<LED_COUNT> {
    #[verifier::type_invariant]
    spec fn within_bounds(self) -> bool {
        self@.wf()
    }

    /// A processor on the first animation, the wheel, at the default frame
    /// time and full brightness, that has rendered nothing yet.
    pub fn new() -> (processor: Self)
        ensures
            processor@.wf(),
            processor@.index == 0,
            processor@.frame_time_micros == FRAME_TIME_DEFAULT_MICROS,
            processor@.brightness == BRIGHTNESS_DEFAULT,
            processor@.last_render_ticks == 0,
            processor@.animations[0] == Animation::Wheel(AnimationState { t: 0, n: 0 }),
            processor@.animations[1] == Animation::Breathe(AnimationState { t: 0, n: 0 }),
            processor@.animations[2] == Animation::Scan(AnimationState { t: 0, n: 0 }),
            processor@.animations[3] == Animation::NoAnimation,
    {
        RGBProcessor {
            animations: [
                Animation::Wheel(AnimationState { t: 0, n: 0 }),
                Animation::Breathe(AnimationState { t: 0, n: 0 }),
                Animation::Scan(AnimationState { t: 0, n: 0 }),
                Animation::NoAnimation,
            ],
            animation_idx: 0,
            last_render_ticks: 0,
            frame_time_micros: FRAME_TIME_DEFAULT_MICROS,
            brightness: BRIGHTNESS_DEFAULT,
        }
    }

    /// The index of the animation in use.
    pub fn animation_index(&self) -> (index: usize)
        ensures
            index == self@.index,
            index < ANIMATION_COUNT,
    {
        proof {
            use_type_invariant(self);
        }
        self.animation_idx
    }

    pub fn frame_time_micros(&self) -> (micros: u64)
        ensures
            micros == self@.frame_time_micros,
            FRAME_TIME_MIN_MICROS <= micros <= FRAME_TIME_MAX_MICROS,
    {
        proof {
            use_type_invariant(self);
        }
        self.frame_time_micros
    }

    pub fn brightness(&self) -> (level: u8)
        ensures
            level == self@.brightness,
    {
        self.brightness
    }

    fn control(&mut self, control: Control)
        ensures
            final(self)@ == old(self)@.controlled(control),
    {
        proof {
            use_type_invariant(&*self);
        }
        match control {
            Control::RGBAnimationNext => {
                self.animation_idx = if self.animation_idx + 1 >= ANIMATION_COUNT {
                    0
                } else {
                    self.animation_idx + 1
                };
            },
            Control::RGBAnimationPrevious => {
                self.animation_idx = if self.animation_idx == 0 {
                    ANIMATION_COUNT - 1
                } else {
                    self.animation_idx - 1
                };
            },
            Control::RGBSpeedUp => {
                self.frame_time_micros = if self.frame_time_micros / 2 < FRAME_TIME_MIN_MICROS {
                    FRAME_TIME_MIN_MICROS
                } else {
                    self.frame_time_micros / 2
                };
            },
            Control::RGBSpeedDown => {
                self.frame_time_micros = if self.frame_time_micros * 2 > FRAME_TIME_MAX_MICROS {
                    FRAME_TIME_MAX_MICROS
                } else {
                    self.frame_time_micros * 2
                };
            },
            Control::RGBBrightnessUp => {
                self.brightness = self.brightness.saturating_add(BRIGHTNESS_STEP);
            },
            Control::RGBBrightnessDown => {
                self.brightness = self.brightness.saturating_sub(BRIGHTNESS_STEP);
            },
            _ => {},
        }
    }

    /// Takes the events of a poll at `now_ticks`: obeys the commands among
    /// them in their order, then renders a frame if one is due. The events
    /// themselves are left as they are.
    pub fn process<L: LayerIndex>(&mut self, events: &Vec<Event<L>>, now_ticks: u64) -> (frame:
        Option<Vec<Color>>)
        ensures
            final(self)@ == old(self)@.processed(events@, now_ticks),
            final(self)@.wf(),
            match frame {
                Some(colors) => old(self)@.frame_of(events@, now_ticks, LED_COUNT as nat) == Some(
                    colors@,
                ),
                None => old(self)@.frame_of(events@, now_ticks, LED_COUNT as nat) is None,
            },
    {
        let mut n: usize = 0;
        while n < events.len()
            invariant
                n <= events.len(),
                self@ == old(self)@.handled_all(events@, n as int),
            decreases events.len() - n,
        {
            let event = events[n];
            match (event.edge, event.action) {
                (Edge::Rising, Action::Control(control)) => {
                    self.control(control);
                },
                _ => {},
            }
            n += 1;
        }
        proof {
            use_type_invariant(&*self);
        }
        if now_ticks >= self.last_render_ticks && now_ticks - self.last_render_ticks
            >= self.frame_time_micros {
            let ghost handled = self@;
            let mut animation = self.animations[self.animation_idx];
            let colors = animation.next::<LED_COUNT>();
            self.animations[self.animation_idx] = animation;
            self.last_render_ticks = now_ticks;
            assert(self@.animations =~= handled.rendered(now_ticks).animations);
            Some(brightness(&colors, self.brightness))
        } else {
            None
        }
    }
}

/// The last stage before the strip: holds every frame down to the
/// brightness that the board can power.
pub struct RGBMatrix<const LED_COUNT: usize> {}

impl<const LED_COUNT: usize> RGBMatrix<LED_COUNT> {
    pub fn new() -> Self {
        RGBMatrix {  }
    }

    /// The colours to write to the strip for a frame.
    pub fn render(&self, frame: &Vec<Color>) -> (colors: Vec<Color>)
        ensures
            colors@ == dimmed_frame(frame@, LED_MAX_BRIGHTNESS),
    {
        brightness(frame, LED_MAX_BRIGHTNESS)
    }
}

} // verus!
