use vstd::prelude::*;

verus! {

/// Marks the start and the end of a frame.
pub const FRAME_DELIMITER: u8 = 0x7E;

/// Announces a stuffed byte inside the body.
pub const FRAME_ESCAPE: u8 = 0x7D;

/// Stands for a delimiter byte after an escape.
pub const ESCAPED_DELIMITER: u8 = 0x5E;

/// Stands for an escape byte after an escape.
pub const ESCAPED_ESCAPE: u8 = 0x5D;

/// The longest body that the one length byte can announce.
pub const MAX_BODY_LEN: usize = 255;

/// Generator polynomial of the checksum, x^8 + x^2 + x + 1.
pub const CRC8_POLYNOMIAL: u8 = 0x07;

/// One step of the checksum register: shift out the top bit and, where it
/// was set, add the polynomial.
pub open spec fn crc8_shift(register: u8) -> u8 {
    if register & 0x80 != 0 {
        (register << 1) ^ CRC8_POLYNOMIAL
    } else {
        register << 1
    }
}

/// The checksum register after one more byte.
pub open spec fn crc8_update(register: u8, byte: u8) -> u8 {
    crc8_shift(
        crc8_shift(
            crc8_shift(
                crc8_shift(crc8_shift(crc8_shift(crc8_shift(crc8_shift(register ^ byte))))),
            ),
        ),
    )
}

/// CRC-8 of a byte string: polynomial 0x07, register cleared at the start,
/// bytes taken most significant bit first, nothing reflected or inverted.
pub open spec fn crc8_spec(bytes: Seq<u8>) -> u8
    decreases bytes.len(),
{
    if bytes.len() == 0 {
        0
    } else {
        crc8_update(crc8_spec(bytes.drop_last()), bytes.last())
    }
}

fn crc8_step(register: u8) -> (next: u8)
    ensures
        next == crc8_shift(register),
{
    if register & 0x80 != 0 {
        (register << 1) ^ CRC8_POLYNOMIAL
    } else {
        register << 1
    }
}

pub fn crc8(bytes: &[u8]) -> (crc: u8)
    ensures
        crc == crc8_spec(bytes@),
{
    let mut register: u8 = 0;
    let mut i: usize = 0;
    while i < bytes.len()
        invariant
            i <= bytes.len(),
            register == crc8_spec(bytes@.take(i as int)),
        decreases bytes.len() - i,
    {
        proof {
            assert(bytes@.take(i + 1).drop_last() == bytes@.take(i as int));
        }
        let mut value = register ^ bytes[i];
        value = crc8_step(value);
        value = crc8_step(value);
        value = crc8_step(value);
        value = crc8_step(value);
        value = crc8_step(value);
        value = crc8_step(value);
        value = crc8_step(value);
        value = crc8_step(value);
        register = value;
        i += 1;
    }
    proof {
        assert(bytes@.take(bytes.len() as int) == bytes@);
    }
    register
}

/// What a body byte becomes on the wire.
pub open spec fn stuffed_byte(byte: u8) -> Seq<u8> {
    if byte == FRAME_DELIMITER {
        seq![FRAME_ESCAPE, ESCAPED_DELIMITER]
    } else if byte == FRAME_ESCAPE {
        seq![FRAME_ESCAPE, ESCAPED_ESCAPE]
    } else {
        seq![byte]
    }
}

/// A body with every delimiter and escape byte stuffed.
pub open spec fn stuffed(body: Seq<u8>) -> Seq<u8>
    decreases body.len(),
{
    if body.len() == 0 {
        Seq::empty()
    } else {
        stuffed(body.drop_last()) + stuffed_byte(body.last())
    }
}

/// The frame of a body: delimiter, length, stuffed body, checksum,
/// delimiter. Length and checksum are those of the body before stuffing.
pub open spec fn frame_of(body: Seq<u8>) -> Seq<u8> {
    seq![FRAME_DELIMITER, body.len() as u8] + stuffed(body) + seq![
        crc8_spec(body),
        FRAME_DELIMITER,
    ]
}

/// Frames a body, or gives nothing where the body is longer than a frame
/// can announce.
pub fn encode_frame(body: &[u8]) -> (frame: Option<Vec<u8>>)
    ensures
        body@.len() <= MAX_BODY_LEN ==> frame is Some && frame->0@ == frame_of(body@),
        body@.len() > MAX_BODY_LEN ==> frame is None,
{
    if body.len() > MAX_BODY_LEN {
        return None;
    }
    let mut frame: Vec<u8> = Vec::new();
    frame.push(FRAME_DELIMITER);
    frame.push(body.len() as u8);
    let mut i: usize = 0;
    while i < body.len()
        invariant
            i <= body.len(),
            frame@ == seq![FRAME_DELIMITER, body@.len() as u8] + stuffed(body@.take(i as int)),
        decreases body.len() - i,
    {
        proof {
            assert(body@.take(i + 1).drop_last() == body@.take(i as int));
        }
        let byte = body[i];
        if byte == FRAME_DELIMITER {
            frame.push(FRAME_ESCAPE);
            frame.push(ESCAPED_DELIMITER);
        } else if byte == FRAME_ESCAPE {
            frame.push(FRAME_ESCAPE);
            frame.push(ESCAPED_ESCAPE);
        } else {
            frame.push(byte);
        }
        i += 1;
    }
    proof {
        assert(body@.take(body.len() as int) == body@);
    }
    frame.push(crc8(body));
    frame.push(FRAME_DELIMITER);
    Some(frame)
}

/// Why the receiver gave up on a frame.
#[derive(Clone, Copy, Debug, PartialEq, Eq, Structural)]
pub enum FrameError {
    /// The checksum byte is not the checksum of the body.
    ChecksumMismatch,
    /// A byte that cannot stand at its place.
    Malformed,
}

/// Where in a frame the parser stands.
#[derive(Clone, Copy, Debug, PartialEq, Eq, Structural)]
pub enum Stage {
    /// Between frames, waiting for a delimiter.
    Idle,
    /// After the opening delimiter, waiting for the length.
    Length,
    /// Inside the body.
    Body,
    /// Inside the body, after an escape byte.
    Escaped,
    /// After the body, waiting for the checksum.
    Checksum,
    /// After the checksum, waiting for the closing delimiter.
    End,
}

/// The state of a parser as a plain value.
pub struct ParserState {
    pub stage: Stage,
    pub expected: u8,
    pub body: Seq<u8>,
    pub checksum_ok: bool,
}

impl ParserState {
    pub open spec fn idle() -> ParserState {
        ParserState { stage: Stage::Idle, expected: 0, body: Seq::empty(), checksum_ok: false }
    }

    /// The state after a body byte, unstuffed, has been taken.
    pub open spec fn accept(self, byte: u8) -> ParserState {
        let body = self.body.push(byte);
        ParserState {
            stage: if body.len() == self.expected {
                Stage::Checksum
            } else {
                Stage::Body
            },
            expected: self.expected,
            body,
            checksum_ok: false,
        }
    }

    /// The state after one more byte, and what that byte completed: nothing
    /// yet, a body, or a frame given up. After a frame given up the parser
    /// waits for the next delimiter.
    pub open spec fn step(self, byte: u8) -> (ParserState, Option<
        core::result::Result<Seq<u8>, FrameError>,
    >) {
        match self.stage {
            Stage::Idle => if byte == FRAME_DELIMITER {
                (ParserState { stage: Stage::Length, ..ParserState::idle() }, None)
            } else {
                (ParserState::idle(), None)
            },
            Stage::Length => (
                ParserState {
                    stage: if byte == 0 {
                        Stage::Checksum
                    } else {
                        Stage::Body
                    },
                    expected: byte,
                    body: Seq::empty(),
                    checksum_ok: false,
                },
                None,
            ),
            Stage::Body => if byte == FRAME_ESCAPE {
                (ParserState { stage: Stage::Escaped, ..self }, None)
            } else if byte == FRAME_DELIMITER {
                (ParserState::idle(), Some(Err(FrameError::Malformed)))
            } else {
                (self.accept(byte), None)
            },
            Stage::Escaped => if byte == ESCAPED_DELIMITER {
                (self.accept(FRAME_DELIMITER), None)
            } else if byte == ESCAPED_ESCAPE {
                (self.accept(FRAME_ESCAPE), None)
            } else {
                (ParserState::idle(), Some(Err(FrameError::Malformed)))
            },
            Stage::Checksum => (
                ParserState {
                    stage: Stage::End,
                    checksum_ok: byte == crc8_spec(self.body),
                    ..self
                },
                None,
            ),
            Stage::End => if byte != FRAME_DELIMITER {
                (ParserState::idle(), Some(Err(FrameError::Malformed)))
            } else if self.checksum_ok {
                (ParserState::idle(), Some(Ok(self.body)))
            } else {
                (ParserState::idle(), Some(Err(FrameError::ChecksumMismatch)))
            },
        }
    }

    /// The state after a string of bytes.
    pub open spec fn after(self, bytes: Seq<u8>) -> ParserState
        decreases bytes.len(),
    {
        if bytes.len() == 0 {
            self
        } else {
            self.after(bytes.drop_last()).step(bytes.last()).0
        }
    }

    /// What the last byte of a string completed.
    pub open spec fn completed(self, bytes: Seq<u8>) -> Option<
        core::result::Result<Seq<u8>, FrameError>,
    > {
        if bytes.len() == 0 {
            None
        } else {
            self.after(bytes.drop_last()).step(bytes.last()).1
        }
    }
}

/// What a byte completed, with the body as a plain value.
pub open spec fn completion_view(
    completion: Option<core::result::Result<Vec<u8>, FrameError>>,
) -> Option<core::result::Result<Seq<u8>, FrameError>> {
    match completion {
        None => None,
        Some(Ok(body)) => Some(Ok(body@)),
        Some(Err(error)) => Some(Err(error)),
    }
}

/// Takes the bytes of the link one at a time and finds the frames in them.
pub struct FrameParser {
    stage: Stage,
    expected: u8,
    body: Vec<u8>,
    checksum_ok: bool,
}

impl View for FrameParser {
    type V = ParserState;

    closed spec fn view(&self) -> ParserState {
        ParserState {
            stage: self.stage,
            expected: self.expected,
            body: self.body@,
            checksum_ok: self.checksum_ok,
        }
    }
}

impl FrameParser {
    pub fn new() -> (parser: FrameParser)
        ensures
            parser@ == ParserState::idle(),
    {
        FrameParser { stage: Stage::Idle, expected: 0, body: Vec::new(), checksum_ok: false }
    }

    fn reset(&mut self)
        ensures
            final(self)@ == ParserState::idle(),
    {
        self.stage = Stage::Idle;
        self.expected = 0;
        self.body = Vec::new();
        self.checksum_ok = false;
    }

    fn accept(&mut self, byte: u8)
        ensures
            final(self)@ == old(self)@.accept(byte),
    {
        self.body.push(byte);
        self.checksum_ok = false;
        if self.body.len() == self.expected as usize {
            self.stage = Stage::Checksum;
        } else {
            self.stage = Stage::Body;
        }
    }

    /// Takes one byte.
    pub fn push(&mut self, byte: u8) -> (completion: Option<
        core::result::Result<Vec<u8>, FrameError>,
    >)
        ensures
            final(self)@ == old(self)@.step(byte).0,
            completion_view(completion) == old(self)@.step(byte).1,
    {
        match self.stage {
            Stage::Idle => {
                self.reset();
                if byte == FRAME_DELIMITER {
                    self.stage = Stage::Length;
                }
                None
            },
            Stage::Length => {
                self.reset();
                self.expected = byte;
                self.stage = if byte == 0 {
                    Stage::Checksum
                } else {
                    Stage::Body
                };
                None
            },
            Stage::Body => {
                if byte == FRAME_ESCAPE {
                    self.stage = Stage::Escaped;
                    None
                } else if byte == FRAME_DELIMITER {
                    self.reset();
                    Some(Err(FrameError::Malformed))
                } else {
                    self.accept(byte);
                    None
                }
            },
            Stage::Escaped => {
                if byte == ESCAPED_DELIMITER {
                    self.accept(FRAME_DELIMITER);
                    None
                } else if byte == ESCAPED_ESCAPE {
                    self.accept(FRAME_ESCAPE);
                    None
                } else {
                    self.reset();
                    Some(Err(FrameError::Malformed))
                }
            },
            Stage::Checksum => {
                self.checksum_ok = byte == crc8(self.body.as_slice());
                self.stage = Stage::End;
                None
            },
            Stage::End => {
                let ok = self.checksum_ok;
                let mut body = Vec::new();
                core::mem::swap(&mut body, &mut self.body);
                self.reset();
                if byte != FRAME_DELIMITER {
                    Some(Err(FrameError::Malformed))
                } else if ok {
                    Some(Ok(body))
                } else {
                    Some(Err(FrameError::ChecksumMismatch))
                }
            },
        }
    }
}

/// The state after a string with one more byte is one step from the state
/// after the string.
pub proof fn lemma_after_push(state: ParserState, bytes: Seq<u8>, byte: u8)
    ensures
        state.after(bytes.push(byte)) == state.after(bytes).step(byte).0,
        state.completed(bytes.push(byte)) == state.after(bytes).step(byte).1,
{
    assert(bytes.push(byte).drop_last() == bytes);
}

/// No byte of the string completes anything: neither a body nor a frame
/// given up.
#[verifier::opaque]
pub open spec fn quiet(state: ParserState, bytes: Seq<u8>) -> bool {
    forall|k: int| 0 < k <= bytes.len() ==> (#[trigger] state.completed(bytes.take(k))) is None
}

proof fn lemma_quiet_empty(state: ParserState)
    ensures
        quiet(state, Seq::<u8>::empty()),
{
    reveal(quiet);
}

proof fn lemma_quiet_push(state: ParserState, bytes: Seq<u8>, byte: u8)
    requires
        quiet(state, bytes),
        state.after(bytes).step(byte).1 is None,
    ensures
        quiet(state, bytes.push(byte)),
{
    reveal(quiet);
    let longer = bytes.push(byte);
    assert forall|k: int| 0 < k <= longer.len() implies (#[trigger] state.completed(
        longer.take(k),
    )) is None by {
        if k <= bytes.len() {
            assert(longer.take(k) == bytes.take(k));
        } else {
            assert(longer.take(k) == longer);
            lemma_after_push(state, bytes, byte);
        }
    }
}

proof fn lemma_quiet_drop_last(state: ParserState, bytes: Seq<u8>)
    requires
        quiet(state, bytes),
        bytes.len() > 0,
    ensures
        quiet(state, bytes.drop_last()),
        state.completed(bytes) is None,
{
    reveal(quiet);
    let shorter = bytes.drop_last();
    assert forall|k: int| 0 < k <= shorter.len() implies (#[trigger] state.completed(
        shorter.take(k),
    )) is None by {
        assert(shorter.take(k) == bytes.take(k));
    }
    assert(bytes.take(bytes.len() as int) == bytes);
}

/// The parser inside a frame of `body`, after the first `taken` bytes of
/// the body.
pub open spec fn within_body(body: Seq<u8>, taken: int) -> ParserState {
    ParserState {
        stage: if taken == body.len() {
            Stage::Checksum
        } else {
            Stage::Body
        },
        expected: body.len() as u8,
        body: body.take(taken),
        checksum_ok: false,
    }
}

proof fn lemma_after_body_prefix(body: Seq<u8>, taken: int)
    requires
        body.len() <= MAX_BODY_LEN,
        0 <= taken <= body.len(),
    ensures
        ParserState::idle().after(
            seq![FRAME_DELIMITER, body.len() as u8] + stuffed(body.take(taken)),
        ) == within_body(body, taken),
        quiet(
            ParserState::idle(),
            seq![FRAME_DELIMITER, body.len() as u8] + stuffed(body.take(taken)),
        ),
    decreases taken,
{
    let idle = ParserState::idle();
    let head = seq![FRAME_DELIMITER, body.len() as u8];
    if taken == 0 {
        let none = Seq::<u8>::empty();
        assert(stuffed(body.take(0)) == none);
        assert(head + stuffed(body.take(0)) == none.push(FRAME_DELIMITER).push(body.len() as u8));
        lemma_after_push(idle, none, FRAME_DELIMITER);
        lemma_after_push(idle, none.push(FRAME_DELIMITER), body.len() as u8);
        lemma_quiet_empty(idle);
        lemma_quiet_push(idle, none, FRAME_DELIMITER);
        lemma_quiet_push(idle, none.push(FRAME_DELIMITER), body.len() as u8);
        assert(body.take(0) == none);
    } else {
        lemma_after_body_prefix(body, taken - 1);
        let before = head + stuffed(body.take(taken - 1));
        let byte = body[taken - 1];
        let state = within_body(body, taken - 1);
        assert(body.take(taken).drop_last() == body.take(taken - 1));
        assert(body.take(taken).last() == byte);
        assert(head + stuffed(body.take(taken)) == before + stuffed_byte(byte));
        assert(state.accept(byte) == within_body(body, taken)) by {
            assert(body.take(taken - 1).push(byte) == body.take(taken));
        }
        if byte == FRAME_DELIMITER {
            assert(before + stuffed_byte(byte) == before.push(FRAME_ESCAPE).push(
                ESCAPED_DELIMITER,
            ));
            lemma_after_push(idle, before, FRAME_ESCAPE);
            lemma_after_push(idle, before.push(FRAME_ESCAPE), ESCAPED_DELIMITER);
            lemma_quiet_push(idle, before, FRAME_ESCAPE);
            lemma_quiet_push(idle, before.push(FRAME_ESCAPE), ESCAPED_DELIMITER);
        } else if byte == FRAME_ESCAPE {
            assert(before + stuffed_byte(byte) == before.push(FRAME_ESCAPE).push(ESCAPED_ESCAPE));
            lemma_after_push(idle, before, FRAME_ESCAPE);
            lemma_after_push(idle, before.push(FRAME_ESCAPE), ESCAPED_ESCAPE);
            lemma_quiet_push(idle, before, FRAME_ESCAPE);
            lemma_quiet_push(idle, before.push(FRAME_ESCAPE), ESCAPED_ESCAPE);
        } else {
            assert(before + stuffed_byte(byte) == before.push(byte));
            lemma_after_push(idle, before, byte);
            lemma_quiet_push(idle, before, byte);
        }
    }
}

/// A parser between frames that takes the frame of a body completes
/// nothing before the last byte, completes exactly that body with the last
/// byte, and stands between frames again.
pub proof fn lemma_frame_round_trip(body: Seq<u8>)
    requires
        body.len() <= MAX_BODY_LEN,
    ensures
        frame_of(body).len() >= 4,
        quiet(ParserState::idle(), frame_of(body).drop_last()),
        ParserState::idle().completed(frame_of(body)) == Some(
            Ok::<Seq<u8>, FrameError>(body),
        ),
        ParserState::idle().after(frame_of(body)) == ParserState::idle(),
{
    let idle = ParserState::idle();
    let inner = seq![FRAME_DELIMITER, body.len() as u8] + stuffed(body);
    lemma_after_body_prefix(body, body.len() as int);
    assert(body.take(body.len() as int) == body);
    assert(frame_of(body) == inner.push(crc8_spec(body)).push(FRAME_DELIMITER));
    assert(frame_of(body).drop_last() == inner.push(crc8_spec(body)));
    lemma_after_push(idle, inner, crc8_spec(body));
    lemma_after_push(idle, inner.push(crc8_spec(body)), FRAME_DELIMITER);
    lemma_quiet_push(idle, inner, crc8_spec(body));
}

/// Names a request and the response to it.
pub type Sequence = u8;

/// The state of a receiver as a plain value.
pub struct ReceiverState {
    pub parser: ParserState,
    /// The bodies that wait to be taken, oldest first.
    pub frames: Seq<Seq<u8>>,
    /// How many frames were dropped for their checksum.
    pub checksum_errors: nat,
}

impl ReceiverState {
    /// The queue after one more body. A body without a sequence byte is
    /// not kept. Into a full queue the body goes in place of the oldest.
    pub open spec fn enqueued(frames: Seq<Seq<u8>>, body: Seq<u8>, capacity: nat) -> Seq<
        Seq<u8>,
    > {
        if body.len() == 0 || capacity == 0 {
            frames
        } else if frames.len() >= capacity {
            frames.skip(1).push(body)
        } else {
            frames.push(body)
        }
    }

    /// The state after one more byte of the link.
    pub open spec fn receive(self, byte: u8, capacity: nat) -> ReceiverState {
        let (parser, completion) = self.parser.step(byte);
        match completion {
            None => ReceiverState { parser, ..self },
            Some(Ok(body)) => ReceiverState {
                parser,
                frames: ReceiverState::enqueued(self.frames, body, capacity),
                checksum_errors: self.checksum_errors,
            },
            Some(Err(FrameError::ChecksumMismatch)) => ReceiverState {
                parser,
                frames: self.frames,
                checksum_errors: if self.checksum_errors < u32::MAX {
                    self.checksum_errors + 1
                } else {
                    self.checksum_errors
                },
            },
            Some(Err(FrameError::Malformed)) => ReceiverState { parser, ..self },
        }
    }

    /// The sequence that a byte announces: that of the body it completes,
    /// where it completes one that is kept.
    pub open spec fn announces(self, byte: u8, capacity: nat) -> Option<Sequence> {
        match self.parser.step(byte).1 {
            Some(Ok(body)) => if body.len() == 0 || capacity == 0 {
                None
            } else {
                Some(body[0])
            },
            _ => None,
        }
    }

    /// The state after a string of bytes.
    pub open spec fn receive_all(self, bytes: Seq<u8>, capacity: nat) -> ReceiverState
        decreases bytes.len(),
    {
        if bytes.len() == 0 {
            self
        } else {
            self.receive_all(bytes.drop_last(), capacity).receive(bytes.last(), capacity)
        }
    }

    /// The sequences that a string of bytes announces, in their order.
    pub open spec fn announced(self, bytes: Seq<u8>, capacity: nat) -> Seq<Sequence>
        decreases bytes.len(),
    {
        if bytes.len() == 0 {
            Seq::empty()
        } else {
            let before = self.announced(bytes.drop_last(), capacity);
            match self.receive_all(bytes.drop_last(), capacity).announces(bytes.last(), capacity) {
                Some(sequence) => before.push(sequence),
                None => before,
            }
        }
    }

    /// The place of the oldest waiting body with the given sequence, from
    /// place `from` on; the length of the queue where there is none.
    pub open spec fn place_of(frames: Seq<Seq<u8>>, sequence: Sequence, from: int) -> int
        decreases frames.len() - from,
    {
        if from >= frames.len() {
            frames.len() as int
        } else if frames[from].len() > 0 && frames[from][0] == sequence {
            from
        } else {
            ReceiverState::place_of(frames, sequence, from + 1)
        }
    }
}

/// The receiving end of the link: finds the frames in the bytes that
/// arrive and keeps up to `CAPACITY` bodies until they are taken.
pub struct FrameReceiver<const CAPACITY: usize> {
    parser: FrameParser,
    frames: Vec<Vec<u8>>,
    checksum_errors: u32,
}

impl<const CAPACITY: usize> View for FrameReceiver<CAPACITY> {
    type V = ReceiverState;

    closed spec fn view(&self) -> ReceiverState {
        ReceiverState {
            parser: self.parser@,
            frames: Seq::new(self.frames@.len(), |i: int| self.frames@[i]@),
            checksum_errors: self.checksum_errors as nat,
        }
    }
}

impl<const CAPACITY: usize> FrameReceiver<CAPACITY> {
    pub fn new() -> (receiver: Self)
        ensures
            receiver@.parser == ParserState::idle(),
            receiver@.frames == Seq::<Seq<u8>>::empty(),
            receiver@.checksum_errors == 0,
    {
        let receiver = FrameReceiver {
            parser: FrameParser::new(),
            frames: Vec::new(),
            checksum_errors: 0,
        };
        assert(receiver@.frames =~= Seq::<Seq<u8>>::empty());
        receiver
    }

    /// How many frames were dropped for their checksum; the count stops at
    /// the largest value it can hold.
    pub fn checksum_errors(&self) -> (count: u32)
        ensures
            count == self@.checksum_errors,
    {
        self.checksum_errors
    }

    /// How many bodies wait to be taken.
    pub fn len(&self) -> (count: usize)
        ensures
            count == self@.frames.len(),
    {
        self.frames.len()
    }

    fn receive(&mut self, byte: u8) -> (sequence: Option<Sequence>)
        ensures
            final(self)@ == old(self)@.receive(byte, CAPACITY as nat),
            sequence == old(self)@.announces(byte, CAPACITY as nat),
    {
        let ghost before = self@;
        match self.parser.push(byte) {
            None => {
                assert(self@.frames =~= before.frames);
                None
            },
            Some(Ok(body)) => {
                if body.len() == 0 || CAPACITY == 0 {
                    assert(self@.frames =~= before.frames);
                    None
                } else {
                    let sequence = body[0];
                    if self.frames.len() >= CAPACITY {
                        self.frames.remove(0);
                    }
                    self.frames.push(body);
                    assert(self@.frames =~= ReceiverState::enqueued(
                        before.frames,
                        body@,
                        CAPACITY as nat,
                    ));
                    Some(sequence)
                }
            },
            Some(Err(FrameError::ChecksumMismatch)) => {
                self.checksum_errors = self.checksum_errors.saturating_add(1);
                assert(self@.frames =~= before.frames);
                None
            },
            Some(Err(FrameError::Malformed)) => {
                assert(self@.frames =~= before.frames);
                None
            },
        }
    }

    /// Takes the bytes that the link has delivered and gives the sequences
    /// of the frames that they complete, in their order. The bodies wait in
    /// the receiver.
    pub fn read_into_buffer(&mut self, bytes: &[u8]) -> (sequences: Vec<Sequence>)
        ensures
            final(self)@ == old(self)@.receive_all(bytes@, CAPACITY as nat),
            sequences@ == old(self)@.announced(bytes@, CAPACITY as nat),
    {
        let mut sequences: Vec<Sequence> = Vec::new();
        let mut i: usize = 0;
        while i < bytes.len()
            invariant
                i <= bytes.len(),
                self@ == old(self)@.receive_all(bytes@.take(i as int), CAPACITY as nat),
                sequences@ == old(self)@.announced(bytes@.take(i as int), CAPACITY as nat),
            decreases bytes.len() - i,
        {
            proof {
                assert(bytes@.take(i + 1).drop_last() == bytes@.take(i as int));
            }
            match self.receive(bytes[i]) {
                Some(sequence) => {
                    sequences.push(sequence);
                },
                None => {},
            }
            i += 1;
        }
        proof {
            assert(bytes@.take(bytes.len() as int) == bytes@);
        }
        sequences
    }

    /// Takes the oldest waiting body with the given sequence out of the
    /// receiver.
    pub fn take_frame(&mut self, sequence: Sequence) -> (body: Option<Vec<u8>>)
        ensures
            final(self)@.parser == old(self)@.parser,
            final(self)@.checksum_errors == old(self)@.checksum_errors,
            ({
                let place = ReceiverState::place_of(old(self)@.frames, sequence, 0);
                if place < old(self)@.frames.len() {
                    &&& body is Some
                    &&& body->0@ == old(self)@.frames[place]
                    &&& final(self)@.frames == old(self)@.frames.remove(place)
                } else {
                    &&& body is None
                    &&& final(self)@.frames == old(self)@.frames
                }
            }),
    {
        let ghost before = self@;
        let mut i: usize = 0;
        while i < self.frames.len()
            invariant
                i <= self.frames.len(),
                self@ == before,
                before == old(self)@,
                ReceiverState::place_of(before.frames, sequence, 0) == ReceiverState::place_of(
                    before.frames,
                    sequence,
                    i as int,
                ),
            decreases self.frames.len() - i,
        {
            assert(before.frames[i as int] == self.frames@[i as int]@);
            if self.frames[i].len() > 0 && self.frames[i][0] == sequence {
                let body = self.frames.remove(i);
                assert(self@.frames =~= before.frames.remove(i as int));
                return Some(body);
            }
            i += 1;
        }
        None
    }
}

/// Bytes that complete nothing move the parser of a receiver and leave the
/// rest of it as it is.
pub proof fn lemma_receive_quiet(state: ReceiverState, bytes: Seq<u8>, capacity: nat)
    requires
        quiet(state.parser, bytes),
    ensures
        state.receive_all(bytes, capacity) == (ReceiverState {
            parser: state.parser.after(bytes),
            ..state
        }),
        state.announced(bytes, capacity) == Seq::<Sequence>::empty(),
    decreases bytes.len(),
{
    if bytes.len() > 0 {
        lemma_quiet_drop_last(state.parser, bytes);
        lemma_receive_quiet(state, bytes.drop_last(), capacity);
    }
}

/// A receiver between frames that takes the frame of a body has that body
/// waiting, where it keeps it, and announces its sequence. Nothing else of
/// the receiver changes.
pub proof fn lemma_receive_frame(state: ReceiverState, body: Seq<u8>, capacity: nat)
    requires
        state.parser == ParserState::idle(),
        body.len() <= MAX_BODY_LEN,
    ensures
        state.receive_all(frame_of(body), capacity) == (ReceiverState {
            frames: ReceiverState::enqueued(state.frames, body, capacity),
            ..state
        }),
        state.announced(frame_of(body), capacity) == (if body.len() == 0 || capacity == 0 {
            Seq::<Sequence>::empty()
        } else {
            seq![body[0]]
        }),
{
    let frame = frame_of(body);
    lemma_frame_round_trip(body);
    lemma_receive_quiet(state, frame.drop_last(), capacity);
}

} // verus!
