use vstd::prelude::*;

use crate::matrix::packing::{
    cells, lemma_matrix_round_trip, pack_matrix, packed, packed_len, unpack_matrix, unpacked,
};
use crate::matrix::Result;
use crate::matrix::codec::{from_bytes, postcard_decoded, postcard_encoded, to_allocvec};

verus! {

/// The bytes of a snapshot on the wire: its time stamp as a varint, the
/// length of its packed matrix as a varint, and its packed matrix.
pub open spec fn postcard_bytes<const ROW_COUNT: usize, const COL_COUNT: usize>(
    result: Result<ROW_COUNT, COL_COUNT>,
) -> Seq<u8> {
    postcard_encoded(result.scan_time_ticks, packed(cells(result.matrix)))
}

/// Why a byte string is no snapshot.
#[derive(Clone, Copy, Debug, PartialEq, Eq, Structural)]
pub enum DecodeError {
    /// The bytes do not hold a time stamp and a byte string.
    Malformed,
    /// The packed matrix has not the length that the cells take.
    LengthMismatch,
}

/// What the encoder made of a snapshot, as the service returns it.
pub fn serialized(outcome: Option<Vec<u8>>) -> (bytes: core::result::Result<
    Vec<u8>,
    crate::remote::Error,
>)
    ensures
        match outcome {
            Some(encoded) => bytes == Ok::<Vec<u8>, crate::remote::Error>(encoded),
            None => bytes == Err::<Vec<u8>, crate::remote::Error>(
                crate::remote::Error::ResponseSerializationFailed,
            ),
        },
{
    match outcome {
        Some(encoded) => Ok(encoded),
        None => Err(crate::remote::Error::ResponseSerializationFailed),
    }
}

impl<const ROW_COUNT: usize, const COL_COUNT: usize> Result<ROW_COUNT, COL_COUNT> {
    /// The snapshot with the given time stamp and packed matrix, where the
    /// packed matrix has the length that the cells take.
    pub fn from_parts(scan_time_ticks: u64, matrix: &[u8]) -> (result: core::result::Result<
        Self,
        DecodeError,
    >)
        ensures
            matrix@.len() == packed_len((ROW_COUNT * COL_COUNT) as nat) ==> result is Ok
                && result->Ok_0.scan_time_ticks == scan_time_ticks && cells(
                result->Ok_0.matrix,
            ) == unpacked(matrix@, (ROW_COUNT * COL_COUNT) as nat),
            matrix@.len() != packed_len((ROW_COUNT * COL_COUNT) as nat) ==> result == Err::<
                Self,
                DecodeError,
            >(DecodeError::LengthMismatch),
    {
        match unpack_matrix::<ROW_COUNT, COL_COUNT>(matrix) {
            Some(matrix) => Ok(Result { scan_time_ticks, matrix }),
            None => Err(DecodeError::LengthMismatch),
        }
    }

    /// The snapshot on the wire: its time stamp and its packed matrix, in
    /// the encoding of postcard. Every snapshot has its bytes, and
    /// `deserialize` reads it back from them.
    pub fn serialize(&self) -> (bytes: core::result::Result<Vec<u8>, crate::remote::Error>)
        ensures
            bytes matches Ok(encoded) && encoded@ == postcard_bytes(*self) && postcard_decoded(
                encoded@,
                usize::BITS,
            ) == Some((self.scan_time_ticks, packed(cells(self.matrix)))),
    {
        let matrix = pack_matrix(&self.matrix);
        serialized(to_allocvec(self.scan_time_ticks, &matrix))
    }

    /// Reads a snapshot from the wire.
    pub fn deserialize(bytes: &[u8]) -> (result: core::result::Result<Self, DecodeError>)
        ensures
            match postcard_decoded(bytes@, usize::BITS) {
                Some((scan_time_ticks, matrix)) => if matrix.len() == packed_len(
                    (ROW_COUNT * COL_COUNT) as nat,
                ) {
                    &&& result is Ok
                    &&& result->Ok_0.scan_time_ticks == scan_time_ticks
                    &&& cells(result->Ok_0.matrix) == unpacked(
                        matrix,
                        (ROW_COUNT * COL_COUNT) as nat,
                    )
                } else {
                    result == Err::<Self, DecodeError>(DecodeError::LengthMismatch)
                },
                None => result == Err::<Self, DecodeError>(DecodeError::Malformed),
            },
    {
        match from_bytes(bytes) {
            Some((scan_time_ticks, matrix)) => Self::from_parts(scan_time_ticks, matrix.as_slice()),
            None => Err(DecodeError::Malformed),
        }
    }
}

/// The bytes that `serialize` gives for a snapshot are read by
/// `deserialize` on a target of the same width, and what it reads is that
/// snapshot.
pub proof fn lemma_serialize_round_trip<const ROW_COUNT: usize, const COL_COUNT: usize>(
    sent: Result<ROW_COUNT, COL_COUNT>,
    bytes: Seq<u8>,
    read: Result<ROW_COUNT, COL_COUNT>,
)
    requires
        postcard_decoded(bytes, usize::BITS) == Some(
            (sent.scan_time_ticks, packed(cells(sent.matrix))),
        ),
        postcard_decoded(bytes, usize::BITS) matches Some((scan_time_ticks, matrix))
            && read.scan_time_ticks == scan_time_ticks && cells(read.matrix) == unpacked(
            matrix,
            (ROW_COUNT * COL_COUNT) as nat,
        ),
    ensures
        postcard_decoded(bytes, usize::BITS) matches Some((scan_time_ticks, matrix))
            && matrix.len() == packed_len((ROW_COUNT * COL_COUNT) as nat),
        read == sent,
{
    lemma_matrix_round_trip(sent.matrix, read.matrix);
}

/// The request of a scan: it says nothing, and takes no bytes.
#[derive(Clone, Copy, Debug, PartialEq, Eq, Structural)]
pub struct SwitchMatrixScanRequest {}

impl SwitchMatrixScanRequest {
    pub fn to_bytes(&self) -> (bytes: Vec<u8>)
        ensures
            bytes@.len() == 0,
    {
        Vec::new()
    }
}

/// The response to a scan: the snapshot of the half that was asked. On the
/// wire it is that snapshot.
#[derive(Clone, Copy, Debug, PartialEq, Eq)]
pub struct SwitchMatrixScanResponse<const ROW_COUNT: usize, const COL_COUNT: usize> {
    pub result: Result<ROW_COUNT, COL_COUNT>,
}

impl<const ROW_COUNT: usize, const COL_COUNT: usize> SwitchMatrixScanResponse<
    ROW_COUNT,
    COL_COUNT,
> {
    pub fn to_bytes(&self) -> (bytes: core::result::Result<Vec<u8>, crate::remote::Error>)
        ensures
            bytes matches Ok(encoded) && encoded@ == postcard_bytes(self.result)
                && postcard_decoded(encoded@, usize::BITS) == Some(
                (self.result.scan_time_ticks, packed(cells(self.result.matrix))),
            ),
    {
        self.result.serialize()
    }

    pub fn from_bytes(bytes: &[u8]) -> (response: core::result::Result<Self, DecodeError>)
        ensures
            match postcard_decoded(bytes@, usize::BITS) {
                Some((scan_time_ticks, matrix)) => if matrix.len() == packed_len(
                    (ROW_COUNT * COL_COUNT) as nat,
                ) {
                    &&& response is Ok
                    &&& response->Ok_0.result.scan_time_ticks == scan_time_ticks
                    &&& cells(response->Ok_0.result.matrix) == unpacked(
                        matrix,
                        (ROW_COUNT * COL_COUNT) as nat,
                    )
                } else {
                    response == Err::<Self, DecodeError>(DecodeError::LengthMismatch)
                },
                None => response == Err::<Self, DecodeError>(DecodeError::Malformed),
            },
    {
        match Result::<ROW_COUNT, COL_COUNT>::deserialize(bytes) {
            Ok(result) => Ok(SwitchMatrixScanResponse { result }),
            Err(error) => Err(error),
        }
    }
}

} // verus!
