pub mod client;
pub mod transport;

use vstd::prelude::*;

use transport::{encode_frame, frame_of, Sequence};

verus! {

/// Names a service of the slave.
pub type ServiceId = u8;

/// Names a method of a service.
pub type MethodId = u8;

/// How many sequences of requests may wait for the server.
pub const REQUEST_SEQUENCE_QUEUE_SIZE: usize = 1;

/// Bytes of a request body before the payload: sequence, service, method.
pub const REQUEST_HEADER_LEN: usize = 3;

/// Bytes of a response body before the payload: sequence, status.
pub const RESPONSE_HEADER_LEN: usize = 2;

/// Why an invocation gave no result.
#[derive(Clone, Copy, Debug, PartialEq, Eq, Structural)]
pub enum Error {
    ResponseSerializationFailed,
    MethodUnimplemented,
    Timeout,
}

/// How an invocation ended, as the response says it.
#[derive(Clone, Copy, Debug, PartialEq, Eq, Structural)]
pub enum Status {
    Done,
    Failed(Error),
}

impl Status {
    /// The status byte on the wire.
    pub open spec fn byte_spec(self) -> u8 {
        match self {
            Status::Done => 0,
            Status::Failed(Error::MethodUnimplemented) => 1,
            Status::Failed(Error::ResponseSerializationFailed) => 2,
            Status::Failed(Error::Timeout) => 3,
        }
    }

    /// The status that a byte on the wire stands for.
    pub open spec fn of_byte_spec(byte: u8) -> Option<Status> {
        if byte == 0 {
            Some(Status::Done)
        } else if byte == 1 {
            Some(Status::Failed(Error::MethodUnimplemented))
        } else if byte == 2 {
            Some(Status::Failed(Error::ResponseSerializationFailed))
        } else if byte == 3 {
            Some(Status::Failed(Error::Timeout))
        } else {
            None
        }
    }

    pub fn byte(self) -> (byte: u8)
        ensures
            byte == self.byte_spec(),
    {
        match self {
            Status::Done => 0,
            Status::Failed(Error::MethodUnimplemented) => 1,
            Status::Failed(Error::ResponseSerializationFailed) => 2,
            Status::Failed(Error::Timeout) => 3,
        }
    }

    pub fn of_byte(byte: u8) -> (status: Option<Status>)
        ensures
            status == Status::of_byte_spec(byte),
    {
        match byte {
            0 => Some(Status::Done),
            1 => Some(Status::Failed(Error::MethodUnimplemented)),
            2 => Some(Status::Failed(Error::ResponseSerializationFailed)),
            3 => Some(Status::Failed(Error::Timeout)),
            _ => None,
        }
    }
}

/// Every status is read back from its own byte.
pub proof fn lemma_status_round_trip(status: Status)
    ensures
        Status::of_byte_spec(status.byte_spec()) == Some(status),
{
}

/// The body of the request frame: sequence, service, method, payload.
pub open spec fn request_body(
    sequence: Sequence,
    service_id: ServiceId,
    method_id: MethodId,
    payload: Seq<u8>,
) -> Seq<u8> {
    seq![sequence, service_id, method_id] + payload
}

/// The body of the response frame: sequence, status, payload.
pub open spec fn response_body(sequence: Sequence, status: Status, payload: Seq<u8>) -> Seq<u8> {
    seq![sequence, status.byte_spec()] + payload
}

/// A request as the master sends it.
#[derive(Debug, PartialEq, Eq)]
pub struct Request {
    pub sequence: Sequence,
    pub service_id: ServiceId,
    pub method_id: MethodId,
    pub payload: Vec<u8>,
}

impl Request {
    pub open spec fn body_spec(self) -> Seq<u8> {
        request_body(self.sequence, self.service_id, self.method_id, self.payload@)
    }

    pub fn to_body(&self) -> (body: Vec<u8>)
        ensures
            body@ == self.body_spec(),
    {
        let mut body: Vec<u8> = Vec::new();
        body.push(self.sequence);
        body.push(self.service_id);
        body.push(self.method_id);
        let mut i: usize = 0;
        while i < self.payload.len()
            invariant
                i <= self.payload.len(),
                body@ == seq![self.sequence, self.service_id, self.method_id]
                    + self.payload@.take(i as int),
            decreases self.payload.len() - i,
        {
            body.push(self.payload[i]);
            i += 1;
        }
        proof {
            assert(self.payload@.take(self.payload.len() as int) == self.payload@);
        }
        body
    }

    /// Reads a request from the body of a frame. A body shorter than the
    /// header is none.
    pub fn from_body(body: &[u8]) -> (request: Option<Request>)
        ensures
            body@.len() < REQUEST_HEADER_LEN ==> request is None,
            body@.len() >= REQUEST_HEADER_LEN ==> request is Some && request->0.body_spec()
                == body@,
    {
        if body.len() < REQUEST_HEADER_LEN {
            return None;
        }
        let payload = copy_from(body, REQUEST_HEADER_LEN);
        let request = Request {
            sequence: body[0],
            service_id: body[1],
            method_id: body[2],
            payload,
        };
        assert(request.body_spec() =~= body@);
        Some(request)
    }
}

/// A response as the slave sends it.
#[derive(Debug, PartialEq, Eq)]
pub struct Response {
    pub sequence: Sequence,
    pub status: Status,
    pub payload: Vec<u8>,
}

impl Response {
    pub open spec fn body_spec(self) -> Seq<u8> {
        response_body(self.sequence, self.status, self.payload@)
    }

    pub fn to_body(&self) -> (body: Vec<u8>)
        ensures
            body@ == self.body_spec(),
    {
        let mut body: Vec<u8> = Vec::new();
        body.push(self.sequence);
        body.push(self.status.byte());
        let mut i: usize = 0;
        while i < self.payload.len()
            invariant
                i <= self.payload.len(),
                body@ == seq![self.sequence, self.status.byte_spec()] + self.payload@.take(
                    i as int,
                ),
            decreases self.payload.len() - i,
        {
            body.push(self.payload[i]);
            i += 1;
        }
        proof {
            assert(self.payload@.take(self.payload.len() as int) == self.payload@);
        }
        body
    }

    /// Reads a response from the body of a frame. A body shorter than the
    /// header, or with a status byte that stands for nothing, is none.
    pub fn from_body(body: &[u8]) -> (response: Option<Response>)
        ensures
            response is Some <==> body@.len() >= RESPONSE_HEADER_LEN && Status::of_byte_spec(
                body@[1],
            ) is Some,
            response is Some ==> response->0.body_spec() == body@,
    {
        if body.len() < RESPONSE_HEADER_LEN {
            return None;
        }
        let status = match Status::of_byte(body[1]) {
            Some(status) => status,
            None => {
                return None;
            },
        };
        let payload = copy_from(body, RESPONSE_HEADER_LEN);
        let response = Response { sequence: body[0], status, payload };
        assert(response.body_spec() =~= body@);
        Some(response)
    }
}

/// The bytes of a string from a place on.
fn copy_from(bytes: &[u8], from: usize) -> (tail: Vec<u8>)
    requires
        from <= bytes@.len(),
    ensures
        tail@ == bytes@.skip(from as int),
{
    let mut tail: Vec<u8> = Vec::new();
    let mut i: usize = from;
    while i < bytes.len()
        invariant
            from <= i <= bytes.len(),
            tail@ == bytes@.subrange(from as int, i as int),
        decreases bytes.len() - i,
    {
        tail.push(bytes[i]);
        assert(bytes@.subrange(from as int, i as int).push(bytes@[i as int]) == bytes@.subrange(
            from as int,
            i + 1,
        ));
        i += 1;
    }
    assert(bytes@.subrange(from as int, bytes@.len() as int) == bytes@.skip(from as int));
    tail
}

/// A request read from its own body is the same request.
pub proof fn lemma_request_round_trip(
    sequence: Sequence,
    service_id: ServiceId,
    method_id: MethodId,
    payload: Seq<u8>,
    read: Request,
)
    requires
        read.body_spec() == request_body(sequence, service_id, method_id, payload),
    ensures
        read.sequence == sequence,
        read.service_id == service_id,
        read.method_id == method_id,
        read.payload@ == payload,
{
    let body = request_body(sequence, service_id, method_id, payload);
    assert(read.body_spec()[0] == body[0]);
    assert(read.body_spec()[1] == body[1]);
    assert(read.body_spec()[2] == body[2]);
    assert(read.payload@ =~= read.body_spec().skip(3));
    assert(payload =~= body.skip(3));
}

/// A response read from its own body is the same response.
pub proof fn lemma_response_round_trip(
    sequence: Sequence,
    status: Status,
    payload: Seq<u8>,
    read: Response,
)
    requires
        read.body_spec() == response_body(sequence, status, payload),
    ensures
        read.sequence == sequence,
        read.status == status,
        read.payload@ == payload,
{
    let body = response_body(sequence, status, payload);
    assert(read.body_spec()[0] == body[0]);
    assert(read.body_spec()[1] == body[1]);
    lemma_status_round_trip(status);
    lemma_status_round_trip(read.status);
    assert(read.payload@ =~= read.body_spec().skip(2));
    assert(payload =~= body.skip(2));
}

/// The longest payload that fits a response frame.
pub const MAX_RESPONSE_PAYLOAD_LEN: usize = 253;

/// The longest payload that fits a request frame.
pub const MAX_REQUEST_PAYLOAD_LEN: usize = 252;

/// What the server does with the body of a frame that reached it.
#[derive(Debug, PartialEq, Eq)]
pub enum Route {
    /// Hand the request to the registered service, then answer with what it
    /// returns.
    Dispatch(Request),
    /// Send this frame: the answer is known without a service.
    Reply(Vec<u8>),
    /// The body is no request; there is nothing to answer.
    Ignore,
}

/// The slave's side of the protocol: knows which services are registered,
/// and frames the answers.
pub struct Server {
    registered: [bool; 256],
}

impl Server {
    /// Whether a service is registered.
    pub closed spec fn is_registered(self, service_id: ServiceId) -> bool {
        self.registered[service_id as int]
    }

    /// The response to a request as a body: what the service returned, or
    /// the status of its error. A payload too long for a frame is answered
    /// as a failure to serialise.
    pub open spec fn answer(
        sequence: Sequence,
        result: core::result::Result<Seq<u8>, Error>,
    ) -> Seq<u8> {
        match result {
            Ok(payload) => if payload.len() <= MAX_RESPONSE_PAYLOAD_LEN {
                response_body(sequence, Status::Done, payload)
            } else {
                response_body(
                    sequence,
                    Status::Failed(Error::ResponseSerializationFailed),
                    Seq::empty(),
                )
            },
            Err(error) => response_body(sequence, Status::Failed(error), Seq::empty()),
        }
    }

    pub fn new() -> (server: Server)
        ensures
            forall|service_id: ServiceId| !server.is_registered(service_id),
    {
        Server { registered: [false; 256] }
    }

    /// Registers a service. The others stay as they are.
    pub fn register_service(&mut self, service_id: ServiceId)
        ensures
            final(self).is_registered(service_id),
            forall|other: ServiceId|
                other != service_id ==> final(self).is_registered(other) == old(
                    self,
                ).is_registered(other),
    {
        self.registered[service_id as usize] = true;
    }

    /// Frames the response to a request.
    pub fn respond(sequence: Sequence, result: core::result::Result<Vec<u8>, Error>) -> (frame:
        Vec<u8>)
        ensures
            frame@ == frame_of(
                Server::answer(
                    sequence,
                    match result {
                        Ok(payload) => Ok(payload@),
                        Err(error) => Err(error),
                    },
                ),
            ),
    {
        let response = match result {
            Ok(payload) => if payload.len() <= MAX_RESPONSE_PAYLOAD_LEN {
                Response { sequence, status: Status::Done, payload }
            } else {
                Response {
                    sequence,
                    status: Status::Failed(Error::ResponseSerializationFailed),
                    payload: Vec::new(),
                }
            },
            Err(error) => Response { sequence, status: Status::Failed(error), payload: Vec::new() },
        };
        let body = response.to_body();
        match encode_frame(body.as_slice()) {
            Some(frame) => frame,
            None => Vec::new(),
        }
    }

    /// Decides what to do with the body of a frame. A body too short for a
    /// request is ignored. A request to a service that is not registered is
    /// answered at once, as a method that is not implemented.
    pub fn route(&self, body: &[u8]) -> (route: Route)
        ensures
            body@.len() < REQUEST_HEADER_LEN ==> route == Route::Ignore,
            body@.len() >= REQUEST_HEADER_LEN && self.is_registered(body@[1]) ==> (
            route matches Route::Dispatch(request) && request.body_spec() == body@),
            body@.len() >= REQUEST_HEADER_LEN && !self.is_registered(body@[1]) ==> (
            route matches Route::Reply(frame) && frame@ == frame_of(
                Server::answer(body@[0], Err(Error::MethodUnimplemented)),
            )),
    {
        match Request::from_body(body) {
            None => Route::Ignore,
            Some(request) => {
                assert(request.body_spec()[1] == body@[1]);
                assert(request.body_spec()[0] == body@[0]);
                if self.registered[request.service_id as usize] {
                    Route::Dispatch(request)
                } else {
                    Route::Reply(Server::respond(request.sequence, Err(Error::MethodUnimplemented)))
                }
            },
        }
    }
}

} // verus!
