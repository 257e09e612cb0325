use kb::remote::client::{Client, Completion};
use kb::remote::transport::{
    crc8, encode_frame, FrameError, FrameParser, FrameReceiver, ESCAPED_DELIMITER,
    ESCAPED_ESCAPE, FRAME_DELIMITER, FRAME_ESCAPE, MAX_BODY_LEN,
};
use kb::remote::{
    Error, Request, Response, Route, Server, Status, MAX_REQUEST_PAYLOAD_LEN,
    MAX_RESPONSE_PAYLOAD_LEN, REQUEST_SEQUENCE_QUEUE_SIZE,
};

fn feed(parser: &mut FrameParser, bytes: &[u8]) -> Vec<Option<Result<Vec<u8>, FrameError>>> {
    bytes.iter().map(|byte| parser.push(*byte)).collect()
}

#[test]
fn crc8_known_values() {
    assert_eq!(crc8(&[]), 0x00);
    assert_eq!(crc8(&[0x00]), 0x00);
    assert_eq!(crc8(&[0x01]), 0x07);
    assert_eq!(crc8(&[0x80]), 0x89);
    assert_eq!(crc8(b"123456789"), 0xF4);
}

#[test]
fn frame_of_a_plain_body() {
    let body = [0x01, 0x10, 0x11];
    assert_eq!(
        encode_frame(&body),
        Some(vec![0x7E, 0x03, 0x01, 0x10, 0x11, crc8(&body), 0x7E])
    );
    assert_eq!(encode_frame(&[]), Some(vec![0x7E, 0x00, 0x00, 0x7E]));
}

#[test]
fn frame_stuffs_delimiter_and_escape() {
    assert_eq!(FRAME_DELIMITER, 0x7E);
    assert_eq!(FRAME_ESCAPE, 0x7D);
    assert_eq!(ESCAPED_DELIMITER, 0x5E);
    assert_eq!(ESCAPED_ESCAPE, 0x5D);
    let body = [0x7E, 0x41, 0x7D, 0x5E];
    assert_eq!(
        encode_frame(&body),
        Some(vec![0x7E, 0x04, 0x7D, 0x5E, 0x41, 0x7D, 0x5D, 0x5E, crc8(&body), 0x7E])
    );
}

#[test]
fn frame_length_limit() {
    assert_eq!(MAX_BODY_LEN, 255);
    let body = vec![0x7E; 255];
    let frame = encode_frame(&body).unwrap();
    assert_eq!(frame.len(), 2 + 2 * 255 + 2);
    assert_eq!(frame[1], 255);
    assert_eq!(encode_frame(&vec![0u8; 256]), None);
}

#[test]
fn parser_reads_what_encode_wrote() {
    let bodies: Vec<Vec<u8>> = vec![
        vec![],
        vec![0x00],
        vec![0x7E],
        vec![0x7D],
        vec![0x7D, 0x5E, 0x7E, 0x5D],
        (0..=254u8).collect(),
        vec![0x7E; 255],
    ];
    let mut parser = FrameParser::new();
    for body in bodies {
        let frame = encode_frame(&body).unwrap();
        let outcomes = feed(&mut parser, &frame);
        let (last, before) = outcomes.split_last().unwrap();
        assert!(before.iter().all(|o| o.is_none()));
        assert_eq!(*last, Some(Ok(body)));
    }
}

#[test]
fn parser_skips_garbage_between_frames() {
    let mut parser = FrameParser::new();
    assert!(feed(&mut parser, &[0x00, 0x41, 0x7D, 0x5E]).iter().all(|o| o.is_none()));
    let frame = encode_frame(&[0x09, 0x08]).unwrap();
    assert_eq!(feed(&mut parser, &frame).last().unwrap(), &Some(Ok(vec![0x09, 0x08])));
}

#[test]
fn parser_drops_a_frame_with_a_bad_checksum() {
    let mut frame = encode_frame(&[0x01, 0x02, 0x03]).unwrap();
    let at = frame.len() - 2;
    frame[at] ^= 0xFF;
    let mut parser = FrameParser::new();
    let outcomes = feed(&mut parser, &frame);
    assert_eq!(
        outcomes.last().unwrap(),
        &Some(Err(FrameError::ChecksumMismatch))
    );
    // the parser is ready for the next frame
    let frame = encode_frame(&[0x04]).unwrap();
    assert_eq!(feed(&mut parser, &frame).last().unwrap(), &Some(Ok(vec![0x04])));
}

#[test]
fn parser_drops_a_malformed_frame() {
    let mut parser = FrameParser::new();
    // a delimiter inside the body
    assert_eq!(
        feed(&mut parser, &[0x7E, 0x02, 0x01, 0x7E]).last().unwrap(),
        &Some(Err(FrameError::Malformed))
    );
    // an escape followed by a byte that is no escaped byte
    assert_eq!(
        feed(&mut parser, &[0x7E, 0x02, 0x7D, 0x41]).last().unwrap(),
        &Some(Err(FrameError::Malformed))
    );
    // no delimiter at the end
    assert_eq!(
        feed(&mut parser, &[0x7E, 0x01, 0x05, crc8(&[0x05]), 0x00]).last().unwrap(),
        &Some(Err(FrameError::Malformed))
    );
    assert_eq!(
        feed(&mut parser, &[0x7E, 0x01, 0x05, crc8(&[0x05]), 0x7E]).last().unwrap(),
        &Some(Ok(vec![0x05]))
    );
}

#[test]
fn receiver_announces_sequences_and_keeps_bodies() {
    let mut receiver = FrameReceiver::<4>::new();
    let mut bytes = encode_frame(&[7, 0x10, 0x11]).unwrap();
    bytes.extend(encode_frame(&[8, 0x10, 0x11, 0xAA]).unwrap());
    // the third frame arrives in two parts
    let third = encode_frame(&[9, 0x00]).unwrap();
    bytes.extend(&third[..3]);
    assert_eq!(receiver.read_into_buffer(&bytes), vec![7, 8]);
    assert_eq!(receiver.len(), 2);
    assert_eq!(receiver.read_into_buffer(&third[3..]), vec![9]);
    assert_eq!(receiver.len(), 3);
    assert_eq!(receiver.take_frame(8), Some(vec![8, 0x10, 0x11, 0xAA]));
    assert_eq!(receiver.take_frame(8), None);
    assert_eq!(receiver.take_frame(7), Some(vec![7, 0x10, 0x11]));
    assert_eq!(receiver.take_frame(9), Some(vec![9, 0x00]));
    assert_eq!(receiver.len(), 0);
    assert_eq!(receiver.checksum_errors(), 0);
}

#[test]
fn receiver_drops_the_oldest_frame_when_full() {
    let mut receiver = FrameReceiver::<2>::new();
    for sequence in 1..=3u8 {
        let frame = encode_frame(&[sequence, sequence]).unwrap();
        assert_eq!(receiver.read_into_buffer(&frame), vec![sequence]);
    }
    assert_eq!(receiver.len(), 2);
    assert_eq!(receiver.take_frame(1), None);
    assert_eq!(receiver.take_frame(2), Some(vec![2, 2]));
    assert_eq!(receiver.take_frame(3), Some(vec![3, 3]));
}

#[test]
fn receiver_takes_the_oldest_of_equal_sequences() {
    let mut receiver = FrameReceiver::<3>::new();
    receiver.read_into_buffer(&encode_frame(&[5, 1]).unwrap());
    receiver.read_into_buffer(&encode_frame(&[5, 2]).unwrap());
    assert_eq!(receiver.take_frame(5), Some(vec![5, 1]));
    assert_eq!(receiver.take_frame(5), Some(vec![5, 2]));
}

#[test]
fn receiver_counts_checksum_errors_and_drops_empty_bodies() {
    let mut receiver = FrameReceiver::<2>::new();
    let mut frame = encode_frame(&[1, 2, 3]).unwrap();
    let at = frame.len() - 2;
    frame[at] = frame[at].wrapping_add(1);
    assert_eq!(receiver.read_into_buffer(&frame), vec![]);
    assert_eq!(receiver.read_into_buffer(&frame), vec![]);
    assert_eq!(receiver.checksum_errors(), 2);
    assert_eq!(receiver.read_into_buffer(&encode_frame(&[]).unwrap()), vec![]);
    assert_eq!(receiver.len(), 0);
    assert_eq!(receiver.checksum_errors(), 2);
}

#[test]
fn status_bytes() {
    assert_eq!(Status::Done.byte(), 0);
    assert_eq!(Status::Failed(Error::MethodUnimplemented).byte(), 1);
    assert_eq!(Status::Failed(Error::ResponseSerializationFailed).byte(), 2);
    assert_eq!(Status::Failed(Error::Timeout).byte(), 3);
    for byte in 0..=3u8 {
        assert_eq!(Status::of_byte(byte).unwrap().byte(), byte);
    }
    assert_eq!(Status::of_byte(4), None);
    assert_eq!(Status::of_byte(255), None);
    assert_eq!(REQUEST_SEQUENCE_QUEUE_SIZE, 1);
}

#[test]
fn request_body_layout() {
    let request = Request {
        sequence: 3,
        service_id: 0x10,
        method_id: 0x11,
        payload: vec![0xAA, 0xBB],
    };
    assert_eq!(request.to_body(), vec![3, 0x10, 0x11, 0xAA, 0xBB]);
    assert_eq!(Request::from_body(&request.to_body()), Some(request));
    assert_eq!(
        Request::from_body(&[1, 2, 3]),
        Some(Request {
            sequence: 1,
            service_id: 2,
            method_id: 3,
            payload: vec![]
        })
    );
    assert_eq!(Request::from_body(&[1, 2]), None);
    assert_eq!(Request::from_body(&[]), None);
}

#[test]
fn response_body_layout() {
    let response = Response {
        sequence: 9,
        status: Status::Done,
        payload: vec![1, 2, 3],
    };
    assert_eq!(response.to_body(), vec![9, 0, 1, 2, 3]);
    assert_eq!(Response::from_body(&response.to_body()), Some(response));
    let failed = Response {
        sequence: 9,
        status: Status::Failed(Error::Timeout),
        payload: vec![],
    };
    assert_eq!(failed.to_body(), vec![9, 3]);
    assert_eq!(Response::from_body(&[9, 3]), Some(failed));
    assert_eq!(Response::from_body(&[9, 4]), None);
    assert_eq!(Response::from_body(&[9]), None);
}

#[test]
fn server_routes_requests() {
    let mut server = Server::new();
    server.register_service(0x10);
    let body = [4, 0x10, 0x11, 0xEE];
    assert_eq!(
        server.route(&body),
        Route::Dispatch(Request {
            sequence: 4,
            service_id: 0x10,
            method_id: 0x11,
            payload: vec![0xEE]
        })
    );
    // an unknown service is answered at once
    assert_eq!(
        server.route(&[5, 0x20, 0x11]),
        Route::Reply(encode_frame(&[5, 1]).unwrap())
    );
    assert_eq!(server.route(&[5, 0x20]), Route::Ignore);
    assert_eq!(server.route(&[]), Route::Ignore);
    server.register_service(0xFF);
    assert!(matches!(server.route(&[6, 0xFF, 0]), Route::Dispatch(_)));
    assert!(matches!(server.route(&[6, 0x10, 0]), Route::Dispatch(_)));
    assert!(matches!(server.route(&[6, 0x00, 0]), Route::Reply(_)));
}

#[test]
fn server_frames_responses() {
    assert_eq!(
        Server::respond(7, Ok(vec![0x7E, 0x01])),
        encode_frame(&[7, 0, 0x7E, 0x01]).unwrap()
    );
    assert_eq!(
        Server::respond(7, Err(Error::MethodUnimplemented)),
        encode_frame(&[7, 1]).unwrap()
    );
    assert_eq!(
        Server::respond(7, Err(Error::ResponseSerializationFailed)),
        encode_frame(&[7, 2]).unwrap()
    );
    assert_eq!(
        Server::respond(7, Err(Error::Timeout)),
        encode_frame(&[7, 3]).unwrap()
    );
    assert_eq!(MAX_RESPONSE_PAYLOAD_LEN, 253);
    let longest = vec![0x55u8; 253];
    let mut body = vec![7, 0];
    body.extend(&longest);
    assert_eq!(Server::respond(7, Ok(longest)), encode_frame(&body).unwrap());
    assert_eq!(
        Server::respond(7, Ok(vec![0x55u8; 254])),
        encode_frame(&[7, 2]).unwrap()
    );
}

#[test]
fn client_numbers_requests_in_turn() {
    let mut client = Client::new(1_000);
    let (first, frame) = client.begin_invoke(0x10, 0x11, &[], 5_000).unwrap();
    assert_eq!(first, 0);
    assert_eq!(frame, encode_frame(&[0, 0x10, 0x11]).unwrap());
    let (second, frame) = client.begin_invoke(0x10, 0x11, &[0xAB], 5_100).unwrap();
    assert_eq!(second, 1);
    assert_eq!(frame, encode_frame(&[1, 0x10, 0x11, 0xAB]).unwrap());
    assert_eq!(client.in_flight_count(), 2);
}

#[test]
fn client_sequences_in_flight_are_distinct() {
    let mut client = Client::new(u64::MAX);
    let mut seen = Vec::new();
    for n in 0..256u64 {
        let (sequence, _) = client.begin_invoke(1, 2, &[], n).unwrap();
        assert!(!seen.contains(&sequence));
        seen.push(sequence);
    }
    assert_eq!(client.in_flight_count(), 256);
    // the sequence in turn, 0 again, is still in flight
    assert_eq!(client.begin_invoke(1, 2, &[], 300), None);
    assert_eq!(client.in_flight_count(), 256);
    assert_eq!(
        client.complete(&[0, 0, 0x42]),
        Completion::Completed(0, Ok(vec![0x42]))
    );
    let (sequence, _) = client.begin_invoke(1, 2, &[], 301).unwrap();
    assert_eq!(sequence, 0);
    assert_eq!(client.begin_invoke(1, 2, &[], 302), None);
}

#[test]
fn client_refuses_a_payload_that_does_not_fit() {
    assert_eq!(MAX_REQUEST_PAYLOAD_LEN, 252);
    let mut client = Client::new(10);
    assert_eq!(client.begin_invoke(1, 2, &[0u8; 253], 0), None);
    assert_eq!(client.in_flight_count(), 0);
    let (sequence, frame) = client.begin_invoke(1, 2, &[0u8; 252], 0).unwrap();
    assert_eq!(sequence, 0);
    assert_eq!(frame[1], 255);
}

#[test]
fn client_completes_the_invocation_that_a_response_answers() {
    let mut client = Client::new(1_000);
    let (a, _) = client.begin_invoke(0x10, 0x11, &[], 0).unwrap();
    let (b, _) = client.begin_invoke(0x10, 0x11, &[], 0).unwrap();
    assert_eq!(
        client.complete(&[b, 0, 9, 8]),
        Completion::Completed(b, Ok(vec![9, 8]))
    );
    assert_eq!(client.in_flight_count(), 1);
    // a second response to the same invocation finds no one waiting
    assert_eq!(client.complete(&[b, 0, 9, 8]), Completion::Ignored);
    assert_eq!(
        client.complete(&[a, 1]),
        Completion::Completed(a, Err(Error::MethodUnimplemented))
    );
    assert_eq!(client.in_flight_count(), 0);
    assert_eq!(client.complete(&[a]), Completion::Ignored);
    assert_eq!(client.complete(&[a, 9]), Completion::Ignored);
    assert_eq!(client.complete(&[]), Completion::Ignored);
}

#[test]
fn client_times_invocations_out() {
    let mut client = Client::new(1_000);
    let (a, _) = client.begin_invoke(0x10, 0x11, &[], 5_000).unwrap();
    let (b, _) = client.begin_invoke(0x10, 0x11, &[], 5_500).unwrap();
    assert_eq!(client.expire(5_999), None);
    assert_eq!(client.expire(6_000), Some(a));
    assert_eq!(client.expire(6_000), None);
    assert_eq!(client.in_flight_count(), 1);
    // the response comes too late
    assert_eq!(client.complete(&[a, 0]), Completion::Ignored);
    assert_eq!(client.expire(u64::MAX), Some(b));
    assert_eq!(client.expire(u64::MAX), None);
    assert_eq!(client.in_flight_count(), 0);
}

#[test]
fn client_deadline_saturates() {
    let mut client = Client::new(u64::MAX);
    let (a, _) = client.begin_invoke(1, 1, &[], 10).unwrap();
    assert_eq!(client.expire(u64::MAX - 1), None);
    assert_eq!(client.expire(u64::MAX), Some(a));
}

#[test]
fn request_travels_from_client_to_server_and_back() {
    let mut client = Client::new(1_000);
    let mut server = Server::new();
    server.register_service(0x10);
    let mut slave = FrameReceiver::<1>::new();
    let mut master = FrameReceiver::<1>::new();

    let (sequence, frame) = client.begin_invoke(0x10, 0x11, &[], 0).unwrap();
    assert_eq!(slave.read_into_buffer(&frame), vec![sequence]);
    let body = slave.take_frame(sequence).unwrap();
    let request = match server.route(&body) {
        Route::Dispatch(request) => request,
        other => panic!("unexpected route {:?}", other),
    };
    assert_eq!(request.method_id, 0x11);
    let reply = Server::respond(request.sequence, Ok(vec![0x7E, 0x7D, 0x00]));
    assert_eq!(master.read_into_buffer(&reply), vec![sequence]);
    let body = master.take_frame(sequence).unwrap();
    assert_eq!(
        client.complete(&body),
        Completion::Completed(sequence, Ok(vec![0x7E, 0x7D, 0x00]))
    );
}
