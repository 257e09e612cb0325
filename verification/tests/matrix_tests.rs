use kb::key::Edge;
use kb::matrix::packing::{pack_matrix, unpack_matrix};
use kb::matrix::wire::{DecodeError, SwitchMatrixScanRequest, SwitchMatrixScanResponse};
use kb::matrix::{
    merge_halves, BasicHorizontalSwitchMatrix, BasicVerticalSwitchMatrix, Bit, Result,
    SplitSwitchMatrix, METHOD_ID_KEY_MATRIX_SCAN, SERVICE_ID_KEY_MATRIX,
};
use kb::remote::{Error, Request};
use kb::split::{detect_mode, detect_side, Mode, Side};

fn bit(edge: Edge, pressed: bool) -> Bit {
    Bit { edge, pressed }
}

fn released() -> Bit {
    bit(Edge::NoEdge, false)
}

fn all_bits() -> [Bit; 6] {
    [
        bit(Edge::NoEdge, false),
        bit(Edge::NoEdge, true),
        bit(Edge::Rising, false),
        bit(Edge::Rising, true),
        bit(Edge::Falling, false),
        bit(Edge::Falling, true),
    ]
}

#[test]
fn bit_codes() {
    let codes: Vec<u8> = all_bits().iter().map(|b| b.pack()).collect();
    assert_eq!(codes, vec![0, 1, 2, 3, 4, 5]);
    for b in all_bits() {
        assert_eq!(Bit::unpack(b.pack()), b);
    }
    assert_eq!(Bit::unpack(6), bit(Edge::NoEdge, false));
    assert_eq!(Bit::unpack(7), bit(Edge::NoEdge, true));
}

#[test]
fn default_result_is_all_released() {
    let result = Result::<2, 3>::default();
    assert_eq!(result.scan_time_ticks, 0);
    assert_eq!(result.matrix, [[released(); 3]; 2]);
}

#[test]
fn scan_derives_edges_from_the_previous_scan() {
    let mut scanner = BasicVerticalSwitchMatrix::<2, 2>::new();
    let first = scanner.scan(&[[true, false], [false, false]], 10);
    assert_eq!(first.scan_time_ticks, 10);
    assert_eq!(first.matrix[0][0], bit(Edge::Rising, true));
    assert_eq!(first.matrix[0][1], released());
    let second = scanner.scan(&[[true, true], [false, false]], 20);
    assert_eq!(second.matrix[0][0], bit(Edge::NoEdge, true));
    assert_eq!(second.matrix[0][1], bit(Edge::Rising, true));
    let third = scanner.scan(&[[false, true], [false, false]], 30);
    assert_eq!(third.matrix[0][0], bit(Edge::Falling, false));
    assert_eq!(third.matrix[0][1], bit(Edge::NoEdge, true));
    assert_eq!(third.matrix[1], [released(); 2]);
    assert_eq!(third.scan_time_ticks, 30);
}

#[test]
fn horizontal_scan_stamps_and_derives_edges() {
    let mut scanner = BasicHorizontalSwitchMatrix::<1, 3>::new();
    let first = scanner.scan(&[[false, true, false]], 7);
    assert_eq!(first.scan_time_ticks, 7);
    assert_eq!(
        first.matrix[0],
        [released(), bit(Edge::Rising, true), released()]
    );
    let second = scanner.scan(&[[false, false, true]], 9);
    assert_eq!(second.scan_time_ticks, 9);
    assert_eq!(
        second.matrix[0],
        [released(), bit(Edge::Falling, false), bit(Edge::Rising, true)]
    );
}

#[test]
fn scan_times_follow_the_clock() {
    let mut scanner = BasicVerticalSwitchMatrix::<1, 1>::new();
    let mut last = 0;
    for now in [0u64, 1, 1, 5, 1_000, u64::MAX] {
        let result = scanner.scan(&[[false]], now);
        assert!(result.scan_time_ticks >= last);
        last = result.scan_time_ticks;
    }
}

#[test]
fn pack_single_cells() {
    for b in all_bits() {
        let packed = pack_matrix(&[[b]]);
        assert_eq!(packed, vec![b.pack() << 5]);
    }
}

#[test]
fn pack_exact_bytes() {
    // codes 3, 5, 1 -> bits 011 101 001, padded: 0111 0100 1000 0000
    let matrix = [[
        bit(Edge::Rising, true),
        bit(Edge::Falling, true),
        bit(Edge::NoEdge, true),
    ]];
    assert_eq!(pack_matrix(&matrix), vec![0b0111_0100, 0b1000_0000]);
    // eight cells fill three bytes exactly
    let row = [
        bit(Edge::Falling, true),
        bit(Edge::NoEdge, false),
        bit(Edge::Rising, true),
        bit(Edge::Falling, false),
        bit(Edge::NoEdge, true),
        bit(Edge::Rising, false),
        bit(Edge::Falling, true),
        bit(Edge::NoEdge, true),
    ];
    // 101 000 011 100 001 010 101 001
    assert_eq!(
        pack_matrix(&[row]),
        vec![0b1010_0001, 0b1100_0010, 0b1010_1001]
    );
}

#[test]
fn packed_length_of_a_half_matrix() {
    let matrix = [[released(); 7]; 5];
    assert_eq!(pack_matrix(&matrix).len(), 14);
    let matrix = [[released(); 15]; 5];
    assert_eq!(pack_matrix(&matrix).len(), 29);
    let empty: [[Bit; 0]; 3] = [[]; 3];
    assert_eq!(pack_matrix(&empty).len(), 0);
}

#[test]
fn unpack_reads_what_pack_wrote() {
    let bits = all_bits();
    let mut matrix = [[released(); 7]; 5];
    let mut n = 0;
    for i in 0..5 {
        for j in 0..7 {
            matrix[i][j] = bits[(n * 5 + i) % 6];
            n += 1;
        }
    }
    let packed = pack_matrix(&matrix);
    assert_eq!(unpack_matrix::<5, 7>(&packed), Some(matrix));
}

#[test]
fn unpack_refuses_other_lengths() {
    let packed = pack_matrix(&[[released(); 7]; 5]);
    assert_eq!(unpack_matrix::<5, 7>(&packed[..13]), None);
    let mut longer = packed.clone();
    longer.push(0);
    assert_eq!(unpack_matrix::<5, 7>(&longer), None);
    assert_eq!(unpack_matrix::<5, 7>(&[]), None);
    assert_eq!(unpack_matrix::<0, 7>(&[]), Some([]));
    assert_eq!(unpack_matrix::<1, 3>(&[0, 0]), Some([[released(); 3]]));
    assert_eq!(unpack_matrix::<1, 3>(&[0]), None);
}

#[test]
fn unpack_ignores_padding_and_reads_invalid_edges_as_none() {
    // one cell, code 110 (edge 3 is no edge), padding ones
    assert_eq!(
        unpack_matrix::<1, 1>(&[0b1101_1111]),
        Some([[bit(Edge::NoEdge, false)]])
    );
    assert_eq!(
        unpack_matrix::<1, 1>(&[0b1111_1111]),
        Some([[bit(Edge::NoEdge, true)]])
    );
    assert_eq!(
        unpack_matrix::<1, 1>(&[0b0110_0000]),
        Some([[bit(Edge::Rising, true)]])
    );
}

#[test]
fn serialize_gives_the_postcard_bytes() {
    let result = Result::<1, 1> {
        scan_time_ticks: 1,
        matrix: [[bit(Edge::Rising, true)]],
    };
    // varint 1, length 1, one packed byte
    assert_eq!(result.serialize(), Ok(vec![0x01, 0x01, 0b0110_0000]));
    let result = Result::<1, 3> {
        scan_time_ticks: 300,
        matrix: [[
            bit(Edge::Rising, true),
            bit(Edge::Falling, true),
            bit(Edge::NoEdge, true),
        ]],
    };
    assert_eq!(
        result.serialize(),
        Ok(vec![0xAC, 0x02, 0x02, 0b0111_0100, 0b1000_0000])
    );
    let bytes = result.serialize().unwrap();
    assert_eq!(
        postcard::from_bytes::<(u64, Vec<u8>)>(&bytes),
        Ok((300, vec![0b0111_0100, 0b1000_0000]))
    );
}

#[test]
fn serialize_writes_varints() {
    let at = |scan_time_ticks: u64| {
        Result::<1, 1> {
            scan_time_ticks,
            matrix: [[bit(Edge::NoEdge, false)]],
        }
        .serialize()
    };
    assert_eq!(at(0), Ok(vec![0x00, 0x01, 0x00]));
    assert_eq!(at(127), Ok(vec![0x7F, 0x01, 0x00]));
    assert_eq!(at(128), Ok(vec![0x80, 0x01, 0x01, 0x00]));
    assert_eq!(at(16_383), Ok(vec![0xFF, 0x7F, 0x01, 0x00]));
    assert_eq!(at(16_384), Ok(vec![0x80, 0x80, 0x01, 0x01, 0x00]));
    assert_eq!(
        at(u64::MAX),
        Ok(vec![0xFF, 0xFF, 0xFF, 0xFF, 0xFF, 0xFF, 0xFF, 0xFF, 0xFF, 0x01, 0x01, 0x00])
    );
    // a packed matrix of 128 bytes and more has a length of two bytes
    let wide = Result::<1, 342>::default().serialize().unwrap();
    assert_eq!(wide.len(), 1 + 2 + 129);
    assert_eq!(wide[..3], [0x00, 0x81, 0x01]);
    let empty = Result::<0, 0>::default().serialize();
    assert_eq!(empty, Ok(vec![0x00, 0x00]));
}

#[test]
fn deserialize_reads_what_serialize_wrote() {
    let bits = all_bits();
    let mut result = Result::<5, 7>::default();
    result.scan_time_ticks = 0x0123_4567_89AB_CDEF;
    for i in 0..5 {
        for j in 0..7 {
            result.matrix[i][j] = bits[(i * 7 + j) % 6];
        }
    }
    let bytes = result.serialize().unwrap();
    assert_eq!(Result::<5, 7>::deserialize(&bytes), Ok(result));
    let response = SwitchMatrixScanResponse { result };
    let bytes = response.to_bytes().unwrap();
    assert_eq!(SwitchMatrixScanResponse::<5, 7>::from_bytes(&bytes), Ok(response));
}

#[test]
fn deserialize_errors() {
    let result = Result::<5, 7>::default();
    let bytes = result.serialize().unwrap();
    assert_eq!(
        Result::<5, 6>::deserialize(&bytes),
        Err(DecodeError::LengthMismatch)
    );
    assert_eq!(Result::<5, 7>::deserialize(&[]), Err(DecodeError::Malformed));
    assert_eq!(
        Result::<5, 7>::deserialize(&bytes[..5]),
        Err(DecodeError::Malformed)
    );
    assert_eq!(
        Result::<1, 1>::from_parts(5, &[0, 0]),
        Err(DecodeError::LengthMismatch)
    );
    assert_eq!(
        Result::<1, 1>::from_parts(5, &[0b0010_0000]),
        Ok(Result {
            scan_time_ticks: 5,
            matrix: [[bit(Edge::NoEdge, true)]]
        })
    );
}

#[test]
fn scan_request_is_empty() {
    assert_eq!(SwitchMatrixScanRequest {}.to_bytes(), Vec::<u8>::new());
}

fn half(cells: [Bit; 3], scan_time_ticks: u64) -> Result<1, 3> {
    Result {
        scan_time_ticks,
        matrix: [cells],
    }
}

#[test]
fn merge_on_the_left_side() {
    let [a, b, c, d, e, f] = all_bits();
    let mut matrix = SplitSwitchMatrix::<1, 3>::new(BasicVerticalSwitchMatrix::new());
    let merged: Result<1, 6> =
        matrix.scan(Side::Left, &half([a, b, c], 11), Some(half([d, e, f], 99)));
    assert_eq!(merged.matrix, [[a, b, c, f, e, d]]);
    assert_eq!(merged.scan_time_ticks, 11);
}

#[test]
fn merge_on_the_right_side() {
    let [a, b, c, d, e, f] = all_bits();
    let mut matrix = SplitSwitchMatrix::<1, 3>::new(BasicVerticalSwitchMatrix::new());
    let merged: Result<1, 6> =
        matrix.scan(Side::Right, &half([a, b, c], 11), Some(half([d, e, f], 99)));
    assert_eq!(merged.matrix, [[d, e, f, c, b, a]]);
    assert_eq!(merged.scan_time_ticks, 11);
}

#[test]
fn merge_with_an_odd_column_count_leaves_the_middle_released() {
    let [_, b, c, d, e, _] = all_bits();
    let left = Result::<1, 2> {
        scan_time_ticks: 1,
        matrix: [[b, c]],
    };
    let right = Result::<1, 2> {
        scan_time_ticks: 2,
        matrix: [[d, e]],
    };
    let merged: Result<1, 5> = merge_halves(&left, &right, 3);
    assert_eq!(merged.matrix, [[b, c, released(), e, d]]);
    assert_eq!(merged.scan_time_ticks, 3);
}

#[test]
fn split_timeout_keeps_the_last_remote_half() {
    let [a, b, c, d, e, f] = all_bits();
    let mut matrix = SplitSwitchMatrix::<1, 3>::new(BasicVerticalSwitchMatrix::new());
    // nothing has come yet: the remote half reads as released
    let merged: Result<1, 6> = matrix.scan(Side::Left, &half([a, b, c], 1), None);
    assert_eq!(
        merged.matrix,
        [[a, b, c, released(), released(), released()]]
    );
    let merged: Result<1, 6> =
        matrix.scan(Side::Left, &half([a, b, c], 2), Some(half([d, e, f], 2)));
    assert_eq!(merged.matrix, [[a, b, c, f, e, d]]);
    // the link is down: local keys still come through, remote cells stay
    let merged: Result<1, 6> = matrix.scan(Side::Left, &half([c, b, a], 3), None);
    assert_eq!(merged.matrix, [[c, b, a, f, e, d]]);
    assert_eq!(merged.scan_time_ticks, 3);
}

#[test]
fn dispatch_scans_and_serializes() {
    let mut matrix = SplitSwitchMatrix::<1, 3>::new(BasicVerticalSwitchMatrix::new());
    assert_eq!(matrix.get_service_id(), SERVICE_ID_KEY_MATRIX);
    assert_eq!(SERVICE_ID_KEY_MATRIX, 0x10);
    assert_eq!(METHOD_ID_KEY_MATRIX_SCAN, 0x11);
    let bytes = matrix
        .dispatch(METHOD_ID_KEY_MATRIX_SCAN, &[], &[[true, false, true]], 5)
        .unwrap();
    let expected = Result::<1, 3> {
        scan_time_ticks: 5,
        matrix: [[
            bit(Edge::Rising, true),
            released(),
            bit(Edge::Rising, true),
        ]],
    };
    assert_eq!(Result::<1, 3>::deserialize(&bytes), Ok(expected));
    // the scan was kept: the next one sees no edge
    let bytes = matrix
        .dispatch(METHOD_ID_KEY_MATRIX_SCAN, &[], &[[true, false, false]], 6)
        .unwrap();
    let expected = Result::<1, 3> {
        scan_time_ticks: 6,
        matrix: [[
            bit(Edge::NoEdge, true),
            released(),
            bit(Edge::Falling, false),
        ]],
    };
    assert_eq!(Result::<1, 3>::deserialize(&bytes), Ok(expected));
}

#[test]
fn only_the_scan_method_scans() {
    assert!(SplitSwitchMatrix::<1, 3>::scans(METHOD_ID_KEY_MATRIX_SCAN));
    assert!(!SplitSwitchMatrix::<1, 3>::scans(0x10));
    assert!(!SplitSwitchMatrix::<1, 3>::scans(0x12));
    assert!(!SplitSwitchMatrix::<1, 3>::scans(0x00));
}

#[test]
fn dispatch_gives_the_exact_bytes() {
    let mut matrix = SplitSwitchMatrix::<1, 1>::new(BasicVerticalSwitchMatrix::new());
    assert_eq!(
        matrix.dispatch(METHOD_ID_KEY_MATRIX_SCAN, &[], &[[true]], 300),
        Ok(vec![0xAC, 0x02, 0x01, 0b0110_0000])
    );
    // the payload of the request does not matter
    assert_eq!(
        matrix.dispatch(METHOD_ID_KEY_MATRIX_SCAN, &[0xFF, 0x00], &[[true]], 301),
        Ok(vec![0xAD, 0x02, 0x01, 0b0010_0000])
    );
}

fn request(service_id: u8, method_id: u8) -> Request {
    Request {
        sequence: 1,
        service_id,
        method_id,
        payload: vec![],
    }
}

#[test]
fn serve_answers_requests_to_this_service_only() {
    let mut matrix = SplitSwitchMatrix::<1, 1>::new(BasicVerticalSwitchMatrix::new());
    assert!(SplitSwitchMatrix::<1, 1>::wants_scan(&request(0x10, 0x11)));
    assert!(!SplitSwitchMatrix::<1, 1>::wants_scan(&request(0x11, 0x11)));
    assert!(!SplitSwitchMatrix::<1, 1>::wants_scan(&request(0x10, 0x10)));
    assert_eq!(
        matrix.serve(&request(0x20, 0x11), &[[true]], 5),
        Err(Error::MethodUnimplemented)
    );
    assert_eq!(
        matrix.serve(&request(0x10, 0x12), &[[true]], 6),
        Err(Error::MethodUnimplemented)
    );
    // neither was a scan: the press is still new
    assert_eq!(
        matrix.serve(&request(0x10, 0x11), &[[true]], 300),
        Ok(vec![0xAC, 0x02, 0x01, 0b0110_0000])
    );
}

#[test]
fn length_is_read_at_the_width_of_an_address() {
    // the length 1 in six groups: more than thirty-two bits take
    let bytes = [0x00, 0x81, 0x80, 0x80, 0x80, 0x80, 0x00, 0b0010_0000];
    let read = Result::<1, 1>::deserialize(&bytes);
    if usize::BITS >= 64 {
        assert_eq!(
            read,
            Ok(Result {
                scan_time_ticks: 0,
                matrix: [[bit(Edge::NoEdge, true)]]
            })
        );
    } else {
        assert_eq!(read, Err(DecodeError::Malformed));
    }
    // in five groups every width reads it
    let bytes = [0x00, 0x81, 0x80, 0x80, 0x80, 0x00, 0b0010_0000];
    assert_eq!(
        Result::<1, 1>::deserialize(&bytes),
        Ok(Result {
            scan_time_ticks: 0,
            matrix: [[bit(Edge::NoEdge, true)]]
        })
    );
}

#[test]
fn dispatch_of_an_unknown_method() {
    let mut matrix = SplitSwitchMatrix::<1, 3>::new(BasicVerticalSwitchMatrix::new());
    assert_eq!(
        matrix.dispatch(0x12, &[], &[[true, true, true]], 5),
        Err(Error::MethodUnimplemented)
    );
    // nothing was scanned
    let result = matrix.scan_local(&[[true, true, true]], 6);
    assert_eq!(result.matrix, [[bit(Edge::Rising, true); 3]]);
}

#[test]
fn side_and_mode_detection() {
    assert_eq!(detect_side(true), Side::Right);
    assert_eq!(detect_side(false), Side::Left);
    assert_eq!(detect_mode(true), Mode::Master);
    assert_eq!(detect_mode(false), Mode::Slave);
}
