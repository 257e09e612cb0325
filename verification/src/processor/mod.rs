pub mod bitmap;
pub mod events;
pub mod keymap;
pub mod mapper;
pub mod pipeline;

use vstd::prelude::*;

use crate::key::{Action, Edge, Key, LayerIndex};
use crate::matrix::Result as Bitmap;

verus! {

/// What a cell, or the encoder, did in one scan.
#[derive(Clone, Copy, Debug, PartialEq, Eq)]
pub struct Event<L: LayerIndex> {
    pub time_ticks: u64,
    pub i: usize,
    pub j: usize,
    pub edge: Edge,
    pub action: Action<L>,
}

/// Why a processor gave up on an input.
#[derive(Debug)]
pub struct Error {
    msg: String,
}

impl Error {
    /// The text of the error.
    pub closed spec fn message_spec(self) -> Seq<char> {
        self.msg@
    }

    pub fn new(msg: &str) -> (error: Error)
        ensures
            error.message_spec() == msg@,
    {
        Error { msg: msg.to_owned() }
    }

    pub fn message(&self) -> (msg: &str)
        ensures
            msg@ == self.message_spec(),
    {
        self.msg.as_str()
    }
}

/// What a processor returns: nothing, or why it gave up.
pub type Result = core::result::Result<(), Error>;

/// A stage that works on the snapshot of the key matrix before it is
/// mapped.
pub trait BitmapProcessor<const ROW_COUNT: usize, const COL_COUNT: usize> {
    fn process(&mut self, bitmap: &mut Bitmap<ROW_COUNT, COL_COUNT>) -> Result;
}

/// A stage that works on the events after the mapping.
pub trait EventsProcessor<L: LayerIndex> {
    fn process(&mut self, events: &mut Vec<Event<L>>) -> Result;
}

/// The keys of a report: those of the events that stand for a key and are
/// not a release, in the order of the events, up to place `count`.
pub open spec fn reported_keys<L: LayerIndex>(events: Seq<Event<L>>, count: int) -> Seq<Key>
    decreases count,
{
    if count <= 0 {
        Seq::empty()
    } else {
        let before = reported_keys(events, count - 1);
        match events[count - 1].action {
            Action::Key(key) => if events[count - 1].edge == Edge::Falling {
                before
            } else {
                before.push(key)
            },
            _ => before,
        }
    }
}

/// The keys to report after a scan. An event with a falling edge tells of
/// a key that is up again, so its key is not in the report.
pub fn keys_report<L: LayerIndex>(events: &Vec<Event<L>>) -> (keys: Vec<Key>)
    ensures
        keys@ == reported_keys(events@, events@.len() as int),
{
    let mut keys: Vec<Key> = Vec::new();
    let mut n: usize = 0;
    while n < events.len()
        invariant
            n <= events.len(),
            keys@ == reported_keys(events@, n as int),
        decreases events.len() - n,
    {
        let event = events[n];
        match event.action {
            Action::Key(key) => {
                match event.edge {
                    Edge::Falling => {},
                    _ => {
                        keys.push(key);
                    },
                }
            },
            _ => {},
        }
        n += 1;
    }
    keys
}

} // verus!
