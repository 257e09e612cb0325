use vstd::prelude::*;

use crate::key::Edge;

verus! {

/// Which way the encoder was turned.
#[derive(Clone, Copy, Debug, PartialEq, Eq, Structural)]
pub enum Direction {
    NoDirection,
    Clockwise,
    CounterClockwise,
}

/// How many quadrature steps make one reported turn.
#[derive(Clone, Copy, Debug, PartialEq, Eq, Structural)]
pub enum Mode {
    /// Every quadrature step counts.
    DentHighPrecision,
    /// A full dent, four steps one way, counts.
    DentLowPrecision,
}

/// Quadrature steps in a dent.
pub const STEPS_PER_DENT: i8 = 4;

/// What one poll of the encoder found.
#[derive(Clone, Copy, Debug, PartialEq, Eq, Structural)]
pub struct Result {
    pub scan_time_ticks: u64,
    pub direction: Direction,
    pub edge: Edge,
}

impl Result {
    /// Nothing turned and nothing changed.
    pub open spec fn is_idle(self) -> bool {
        self.edge == Edge::NoEdge && self.direction == Direction::NoDirection
    }
}

impl Default for Result {
    fn default() -> (result: Result)
        ensures
            result == (Result {
                scan_time_ticks: 0,
                direction: Direction::NoDirection,
                edge: Edge::NoEdge,
            }),
    {
        Result { scan_time_ticks: 0, direction: Direction::NoDirection, edge: Edge::NoEdge }
    }
}

/// The place of a pair of line levels in the cycle that a clockwise turn
/// runs through: both low, A high, both high, B high.
pub open spec fn phase(a: bool, b: bool) -> int {
    if !a && !b {
        0
    } else if a && !b {
        1
    } else if a && b {
        2
    } else {
        3
    }
}

/// The quadrature step between two pairs of line levels: one place forth
/// in the cycle is clockwise, one place back counter-clockwise. No change,
/// or a change of both lines at once, is no step.
pub open spec fn quadrature_step(
    previous_a: bool,
    previous_b: bool,
    a: bool,
    b: bool,
) -> Direction {
    let moved = (phase(a, b) - phase(previous_a, previous_b) + 4) % 4;
    if moved == 1 {
        Direction::Clockwise
    } else if moved == 3 {
        Direction::CounterClockwise
    } else {
        Direction::NoDirection
    }
}

/// The state of an encoder as a plain value.
pub struct EncoderState {
    pub mode: Mode,
    pub previous_a: bool,
    pub previous_b: bool,
    /// Steps gathered towards a dent: positive clockwise.
    pub count: int,
    /// Whether the poll before reported a turn.
    pub turning: bool,
}

impl EncoderState {
    /// The count after a step, before a full dent is reported.
    pub open spec fn counted(self, step: Direction) -> int {
        match step {
            Direction::Clockwise => self.count + 1,
            Direction::CounterClockwise => self.count - 1,
            Direction::NoDirection => self.count,
        }
    }

    /// The direction that a poll reports when the lines read `a` and `b`.
    pub open spec fn reported(self, a: bool, b: bool) -> Direction {
        let step = quadrature_step(self.previous_a, self.previous_b, a, b);
        match self.mode {
            Mode::DentHighPrecision => step,
            Mode::DentLowPrecision => if self.counted(step) >= STEPS_PER_DENT {
                Direction::Clockwise
            } else if self.counted(step) <= -STEPS_PER_DENT {
                Direction::CounterClockwise
            } else {
                Direction::NoDirection
            },
        }
    }

    /// The state after a poll.
    pub open spec fn polled(self, a: bool, b: bool) -> EncoderState {
        let step = quadrature_step(self.previous_a, self.previous_b, a, b);
        EncoderState {
            mode: self.mode,
            previous_a: a,
            previous_b: b,
            count: match self.mode {
                Mode::DentHighPrecision => 0,
                Mode::DentLowPrecision => if self.reported(a, b) != Direction::NoDirection {
                    0
                } else {
                    self.counted(step)
                },
            },
            turning: self.reported(a, b) != Direction::NoDirection,
        }
    }

    /// What a poll at `now_ticks` gives: the direction, and an edge that
    /// rises with the first poll of a turn and falls with the first poll
    /// after it.
    pub open spec fn result(self, a: bool, b: bool, now_ticks: u64) -> Result {
        Result {
            scan_time_ticks: now_ticks,
            direction: self.reported(a, b),
            edge: Edge::between(self.turning, self.reported(a, b) != Direction::NoDirection),
        }
    }
}

/// Decodes the two quadrature lines of a rotary encoder.
pub struct RotaryEncoder {
    mode: Mode,
    previous_a: bool,
    previous_b: bool,
    count: i8,
    turning: bool,
}

impl View for RotaryEncoder {
    type V = EncoderState;

    closed spec fn view(&self) -> EncoderState {
        EncoderState {
            mode: self.mode,
            previous_a: self.previous_a,
            previous_b: self.previous_b,
            count: self.count as int,
            turning: self.turning,
        }
    }
}

fn step_between(previous_a: bool, previous_b: bool, a: bool, b: bool) -> (step: Direction)
    ensures
        step == quadrature_step(previous_a, previous_b, a, b),
{
    let before: u8 = line_phase(previous_a, previous_b);
    let now: u8 = line_phase(a, b);
    let moved = (now + 4 - before) % 4;
    if moved == 1 {
        Direction::Clockwise
    } else if moved == 3 {
        Direction::CounterClockwise
    } else {
        Direction::NoDirection
    }
}

fn line_phase(a: bool, b: bool) -> (place: u8)
    ensures
        place == phase(a, b),
{
    if !a && !b {
        0
    } else if a && !b {
        1
    } else if a && b {
        2
    } else {
        3
    }
}

impl RotaryEncoder {
    #[verifier::type_invariant]
    spec fn within_a_dent(self) -> bool {
        -STEPS_PER_DENT < self.count < STEPS_PER_DENT
    }

    /// An encoder at rest with both lines low.
    pub fn new(mode: Mode) -> (encoder: RotaryEncoder)
        ensures
            encoder@ == (EncoderState {
                mode,
                previous_a: false,
                previous_b: false,
                count: 0,
                turning: false,
            }),
    {
        RotaryEncoder { mode, previous_a: false, previous_b: false, count: 0, turning: false }
    }

    /// Takes the levels of the two lines, read at `now_ticks`.
    pub fn scan(&mut self, a: bool, b: bool, now_ticks: u64) -> (result: Result)
        ensures
            result == old(self)@.result(a, b, now_ticks),
            final(self)@ == old(self)@.polled(a, b),
    {
        proof {
            use_type_invariant(&*self);
        }
        let step = step_between(self.previous_a, self.previous_b, a, b);
        let direction = match self.mode {
            Mode::DentHighPrecision => {
                self.count = 0;
                step
            },
            Mode::DentLowPrecision => {
                let counted: i8 = match step {
                    Direction::Clockwise => self.count + 1,
                    Direction::CounterClockwise => self.count - 1,
                    Direction::NoDirection => self.count,
                };
                if counted >= STEPS_PER_DENT {
                    self.count = 0;
                    Direction::Clockwise
                } else if counted <= -STEPS_PER_DENT {
                    self.count = 0;
                    Direction::CounterClockwise
                } else {
                    self.count = counted;
                    Direction::NoDirection
                }
            },
        };
        let turning = match direction {
            Direction::NoDirection => false,
            _ => true,
        };
        let edge = Edge::from((self.turning, turning));
        self.previous_a = a;
        self.previous_b = b;
        self.turning = turning;
        Result { scan_time_ticks: now_ticks, direction, edge }
    }
}

} // verus!
