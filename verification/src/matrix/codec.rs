use vstd::prelude::*;

verus! {

/// A number in the variable-length form of postcard: seven bits to a byte,
/// the lowest seven first, and the top bit of every byte but the last set.
pub open spec fn varint(value: nat) -> Seq<u8>
    decreases value,
{
    if value < 128 {
        seq![value as u8]
    } else {
        seq![(value % 128 + 128) as u8] + varint(value / 128)
    }
}

/// The bytes that `postcard::to_allocvec` gives for a time stamp followed
/// by a byte string: the time stamp as a varint, the length of the byte
/// string as a varint, then the byte string as it is.
pub open spec fn postcard_encoded(scan_time_ticks: u64, matrix: Seq<u8>) -> Seq<u8> {
    varint(scan_time_ticks as nat) + varint(matrix.len()) + matrix
}

/// The time stamp and the byte string that `postcard::from_bytes` reads
/// from the start of a byte string, where it can read them, on a target
/// whose addresses have `length_bits` bits. It reads more than
/// `postcard_encoded` writes: a varint padded with empty groups, and bytes
/// after the end, are taken too. The length is read as a number of the
/// width of an address, so a length padded beyond the groups that this
/// width takes is read on a wide target and refused on a narrow one.
pub uninterp spec fn postcard_decoded(bytes: Seq<u8>, length_bits: u32) -> Option<
    (u64, Seq<u8>),
>;

/// Calls `postcard::to_allocvec` on the pair of the time stamp and the byte
/// string, which postcard writes as the fields of a struct one after the
/// other. Into a vector postcard writes without fail: every push returns
/// `Ok`, and the length of the byte string is known. The contract states
/// the bytes, and claims of them what postcard is for: that
/// `postcard::from_bytes`, on this target, reads the same pair back from
/// them.
#[verifier::external_body]
pub(crate) fn to_allocvec(scan_time_ticks: u64, matrix: &Vec<u8>) -> (outcome: Option<Vec<u8>>)
    ensures
        outcome is Some,
        outcome matches Some(bytes) ==> bytes@ == postcard_encoded(scan_time_ticks, matrix@),
        outcome matches Some(bytes) ==> postcard_decoded(bytes@, usize::BITS) == Some(
            (scan_time_ticks, matrix@),
        ),
{
    postcard::to_allocvec(&(scan_time_ticks, matrix)).ok()
}

/// Calls `postcard::from_bytes` for a pair of a time stamp and a byte
/// string. The contract names what it reads on this target, and says that
/// nothing is returned exactly where postcard reports an error.
#[verifier::external_body]
pub(crate) fn from_bytes(bytes: &[u8]) -> (outcome: Option<(u64, Vec<u8>)>)
    ensures
        match outcome {
            Some((scan_time_ticks, matrix)) => postcard_decoded(bytes@, usize::BITS) == Some(
                (scan_time_ticks, matrix@),
            ),
            None => postcard_decoded(bytes@, usize::BITS) is None,
        },
{
    postcard::from_bytes::<(u64, Vec<u8>)>(bytes).ok()
}

} // verus!
