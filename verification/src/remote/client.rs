use vstd::prelude::*;

use crate::remote::transport::{encode_frame, frame_of, Sequence};
use crate::remote::{
    request_body, Error, MethodId, Response, ServiceId, Status, MAX_REQUEST_PAYLOAD_LEN,
};

verus! {

/// An invocation that waits for its response.
#[derive(Clone, Copy, Debug, PartialEq, Eq, Structural)]
pub struct Pending {
    pub sequence: Sequence,
    /// The tick from which on the invocation has timed out.
    pub deadline_ticks: u64,
}

/// No two of the invocations share a sequence.
pub open spec fn sequences_distinct(pending: Seq<Pending>) -> bool {
    forall|i: int, j: int|
        0 <= i < j < pending.len() ==> (#[trigger] pending[i]).sequence != (
        #[trigger] pending[j]).sequence
}

/// The place of the invocation with a sequence, from place `from` on; the
/// length where there is none.
pub open spec fn place_of_sequence(pending: Seq<Pending>, sequence: Sequence, from: int) -> int
    decreases pending.len() - from,
{
    if from >= pending.len() {
        pending.len() as int
    } else if pending[from].sequence == sequence {
        from
    } else {
        place_of_sequence(pending, sequence, from + 1)
    }
}

/// The place of the oldest invocation whose deadline has come, from place
/// `from` on; the length where there is none.
pub open spec fn place_of_expired(pending: Seq<Pending>, now_ticks: u64, from: int) -> int
    decreases pending.len() - from,
{
    if from >= pending.len() {
        pending.len() as int
    } else if pending[from].deadline_ticks <= now_ticks {
        from
    } else {
        place_of_expired(pending, now_ticks, from + 1)
    }
}

/// Whether an invocation with the sequence is in flight.
pub open spec fn in_flight(pending: Seq<Pending>, sequence: Sequence) -> bool {
    place_of_sequence(pending, sequence, 0) < pending.len()
}

proof fn lemma_place_of_sequence(pending: Seq<Pending>, sequence: Sequence, from: int)
    requires
        0 <= from,
    ensures
        from <= place_of_sequence(pending, sequence, from) || pending.len() <= from,
        place_of_sequence(pending, sequence, from) <= pending.len() || pending.len() <= from,
        place_of_sequence(pending, sequence, from) < pending.len() ==> pending[place_of_sequence(
            pending,
            sequence,
            from,
        )].sequence == sequence,
        forall|k: int|
            from <= k < place_of_sequence(pending, sequence, from) && k < pending.len()
                ==> (#[trigger] pending[k]).sequence != sequence,
    decreases pending.len() - from,
{
    if from < pending.len() && pending[from].sequence != sequence {
        lemma_place_of_sequence(pending, sequence, from + 1);
    }
}

/// What a response meant to the client.
#[derive(Debug, PartialEq, Eq)]
pub enum Completion {
    /// The invocation with this sequence is over, with this result.
    Completed(Sequence, core::result::Result<Vec<u8>, Error>),
    /// The body is no response, or no invocation waits for it.
    Ignored,
}

/// The state of a client as a plain value.
pub struct ClientState {
    pub next_sequence: Sequence,
    pub timeout_ticks: u64,
    pub pending: Seq<Pending>,
}

/// The master's side of the protocol: numbers the requests and keeps track
/// of the invocations in flight.
pub struct Client {
    next_sequence: Sequence,
    timeout_ticks: u64,
    pending: Vec<Pending>,
}

impl View for Client {
    type V = ClientState;

    closed spec fn view(&self) -> ClientState {
        ClientState {
            next_sequence: self.next_sequence,
            timeout_ticks: self.timeout_ticks,
            pending: self.pending@,
        }
    }
}

impl Client {
    #[verifier::type_invariant]
    spec fn distinct(self) -> bool {
        sequences_distinct(self.pending@)
    }

    /// No two invocations in flight share a sequence. This holds of every
    /// client at all times.
    pub open spec fn wf(self) -> bool {
        sequences_distinct(self@.pending)
    }

    /// A client without invocations in flight, whose invocations time out
    /// `timeout_ticks` after they began.
    pub fn new(timeout_ticks: u64) -> (client: Client)
        ensures
            client@.next_sequence == 0,
            client@.timeout_ticks == timeout_ticks,
            client@.pending == Seq::<Pending>::empty(),
            client.wf(),
    {
        Client { next_sequence: 0, timeout_ticks, pending: Vec::new() }
    }

    /// How many invocations are in flight.
    pub fn in_flight_count(&self) -> (count: usize)
        ensures
            count == self@.pending.len(),
            self.wf(),
    {
        proof {
            use_type_invariant(self);
        }
        self.pending.len()
    }

    fn find(&self, sequence: Sequence) -> (place: usize)
        ensures
            place == place_of_sequence(self@.pending, sequence, 0),
            place <= self@.pending.len(),
    {
        let mut i: usize = 0;
        while i < self.pending.len()
            invariant
                i <= self.pending.len(),
                place_of_sequence(self@.pending, sequence, 0) == place_of_sequence(
                    self@.pending,
                    sequence,
                    i as int,
                ),
            decreases self.pending.len() - i,
        {
            if self.pending[i].sequence == sequence {
                return i;
            }
            i += 1;
        }
        i
    }

    /// Begins an invocation at `now_ticks`: gives its sequence and the
    /// frame of the request to send. The sequence is the next in turn and
    /// the turn moves on, wrapping after 255. Nothing begins, and nothing
    /// changes, where the payload does not fit a frame or the sequence in
    /// turn is still in flight.
    pub fn begin_invoke(
        &mut self,
        service_id: ServiceId,
        method_id: MethodId,
        payload: &[u8],
        now_ticks: u64,
    ) -> (begun: Option<(Sequence, Vec<u8>)>)
        ensures
            final(self).wf(),
            final(self)@.timeout_ticks == old(self)@.timeout_ticks,
            begun is Some <==> payload@.len() <= MAX_REQUEST_PAYLOAD_LEN && !in_flight(
                old(self)@.pending,
                old(self)@.next_sequence,
            ),
            begun is None ==> final(self)@ == old(self)@,
            begun matches Some((sequence, frame)) ==> {
                &&& sequence == old(self)@.next_sequence
                &&& frame@ == frame_of(request_body(sequence, service_id, method_id, payload@))
                &&& final(self)@.next_sequence == (if sequence == 255 {
                    0
                } else {
                    sequence + 1
                })
                &&& final(self)@.pending == old(self)@.pending.push(
                    Pending {
                        sequence,
                        deadline_ticks: if now_ticks + old(self)@.timeout_ticks > u64::MAX {
                            u64::MAX
                        } else {
                            (now_ticks + old(self)@.timeout_ticks) as u64
                        },
                    },
                )
            },
    {
        proof {
            use_type_invariant(&*self);
        }
        if payload.len() > MAX_REQUEST_PAYLOAD_LEN {
            return None;
        }
        let sequence = self.next_sequence;
        if self.find(sequence) < self.pending.len() {
            return None;
        }
        let mut body: Vec<u8> = Vec::new();
        body.push(sequence);
        body.push(service_id);
        body.push(method_id);
        let mut i: usize = 0;
        while i < payload.len()
            invariant
                i <= payload.len(),
                body@ == seq![sequence, service_id, method_id] + payload@.take(i as int),
            decreases payload.len() - i,
        {
            body.push(payload[i]);
            i += 1;
        }
        proof {
            assert(payload@.take(payload.len() as int) == payload@);
        }
        let frame = match encode_frame(body.as_slice()) {
            Some(frame) => frame,
            None => {
                return None;
            },
        };
        proof {
            lemma_place_of_sequence(self.pending@, sequence, 0);
        }
        let mut pending: Vec<Pending> = Vec::new();
        core::mem::swap(&mut pending, &mut self.pending);
        pending.push(
            Pending { sequence, deadline_ticks: now_ticks.saturating_add(self.timeout_ticks) },
        );
        self.pending = pending;
        self.next_sequence = sequence.wrapping_add(1);
        Some((sequence, frame))
    }

    /// Takes the body of a frame that reached the master. Where it is the
    /// response to an invocation in flight, that invocation is over and
    /// leaves the client. Anything else changes nothing.
    pub fn complete(&mut self, body: &[u8]) -> (completion: Completion)
        ensures
            final(self).wf(),
            final(self)@.next_sequence == old(self)@.next_sequence,
            final(self)@.timeout_ticks == old(self)@.timeout_ticks,
            ({
                let answers = body@.len() >= 2 && Status::of_byte_spec(body@[1]) is Some
                    && in_flight(old(self)@.pending, body@[0]);
                if answers {
                    let place = place_of_sequence(old(self)@.pending, body@[0], 0);
                    &&& final(self)@.pending == old(self)@.pending.remove(place)
                    &&& completion matches Completion::Completed(sequence, result)
                    &&& sequence == body@[0]
                    &&& match Status::of_byte_spec(body@[1])->0 {
                        Status::Done => result matches Ok(payload) && payload@ == body@.skip(2),
                        Status::Failed(error) => result == Err::<Vec<u8>, Error>(error),
                    }
                } else {
                    &&& final(self)@ == old(self)@
                    &&& completion == Completion::Ignored
                }
            }),
    {
        proof {
            use_type_invariant(&*self);
        }
        let response = match Response::from_body(body) {
            Some(response) => response,
            None => {
                return Completion::Ignored;
            },
        };
        proof {
            assert(response.body_spec()[0] == body@[0]);
            assert(response.body_spec()[1] == body@[1]);
            assert(response.payload@ =~= response.body_spec().skip(2));
            crate::remote::lemma_status_round_trip(response.status);
        }
        let place = self.find(response.sequence);
        if place >= self.pending.len() {
            return Completion::Ignored;
        }
        let mut pending: Vec<Pending> = Vec::new();
        core::mem::swap(&mut pending, &mut self.pending);
        pending.remove(place);
        self.pending = pending;
        let sequence = response.sequence;
        match response.status {
            Status::Done => Completion::Completed(sequence, Ok(response.payload)),
            Status::Failed(error) => Completion::Completed(sequence, Err(error)),
        }
    }

    /// Looks for an invocation whose deadline has come at `now_ticks`. The
    /// oldest such invocation is over, as timed out, and leaves the client;
    /// its sequence is returned.
    pub fn expire(&mut self, now_ticks: u64) -> (expired: Option<Sequence>)
        ensures
            final(self).wf(),
            final(self)@.next_sequence == old(self)@.next_sequence,
            final(self)@.timeout_ticks == old(self)@.timeout_ticks,
            ({
                let place = place_of_expired(old(self)@.pending, now_ticks, 0);
                if place < old(self)@.pending.len() {
                    &&& expired == Some(old(self)@.pending[place].sequence)
                    &&& final(self)@.pending == old(self)@.pending.remove(place)
                } else {
                    &&& expired is None
                    &&& final(self)@ == old(self)@
                }
            }),
    {
        proof {
            use_type_invariant(&*self);
        }
        let mut i: usize = 0;
        while i < self.pending.len()
            invariant
                i <= self.pending.len(),
                self@ == old(self)@,
                sequences_distinct(self.pending@),
                place_of_expired(self.pending@, now_ticks, 0) == place_of_expired(
                    self.pending@,
                    now_ticks,
                    i as int,
                ),
            decreases self.pending.len() - i,
        {
            if self.pending[i].deadline_ticks <= now_ticks {
                let mut pending: Vec<Pending> = Vec::new();
                core::mem::swap(&mut pending, &mut self.pending);
                let gone = pending.remove(i);
                self.pending = pending;
                return Some(gone.sequence);
            }
            i += 1;
        }
        None
    }
}

} // verus!
