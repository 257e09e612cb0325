use vstd::prelude::*;

use crate::key::Edge;
use crate::split::Side;

pub mod codec;
pub mod packing;
pub mod wire;

verus! {

/// One cell of a scan: whether the switch is down, and how that differs
/// from the scan before.
#[derive(Clone, Copy, Debug, PartialEq, Eq, Structural)]
pub struct Bit {
    pub edge: Edge,
    pub pressed: bool,
}

impl Bit {
    /// A released cell without an edge.
    pub open spec fn released() -> Bit {
        Bit { edge: Edge::NoEdge, pressed: false }
    }

    /// The cell that a sample gives after a previous pressed state.
    pub open spec fn sampled(previous_pressed: bool, pressed: bool) -> Bit {
        Bit { edge: Edge::between(previous_pressed, pressed), pressed }
    }

    /// The three bits of the cell on the wire: edge in the upper two
    /// (0 none, 1 rising, 2 falling), pressed in the lowest.
    pub open spec fn code_spec(self) -> u8 {
        let edge: u8 = match self.edge {
            Edge::NoEdge => 0,
            Edge::Rising => 1,
            Edge::Falling => 2,
        };
        (edge * 2 + if self.pressed {
            1u8
        } else {
            0u8
        }) as u8
    }

    /// The cell that a code stands for. An edge code beyond falling reads
    /// as no edge.
    pub open spec fn of_code(code: u8) -> Bit {
        Bit {
            edge: if code / 2 == 1 {
                Edge::Rising
            } else if code / 2 == 2 {
                Edge::Falling
            } else {
                Edge::NoEdge
            },
            pressed: code % 2 == 1,
        }
    }

    pub fn pack(&self) -> (code: u8)
        ensures
            code == self.code_spec(),
            code < 6,
    {
        let edge: u8 = match self.edge {
            Edge::NoEdge => 0,
            Edge::Rising => 1,
            Edge::Falling => 2,
        };
        edge * 2 + if self.pressed {
            1
        } else {
            0
        }
    }

    pub fn unpack(packed: u8) -> (bit: Bit)
        ensures
            bit == Bit::of_code(packed),
    {
        let edge = match packed / 2 {
            1 => Edge::Rising,
            2 => Edge::Falling,
            _ => Edge::NoEdge,
        };
        Bit { edge, pressed: packed % 2 == 1 }
    }
}

/// Every cell is read back from its own code.
pub proof fn lemma_code_round_trip(bit: Bit)
    ensures
        Bit::of_code(bit.code_spec()) == bit,
{
}

/// A snapshot of the whole matrix with the time of the scan.
#[derive(Clone, Copy, Debug, PartialEq, Eq)]
pub struct Result<const ROW_COUNT: usize, const COL_COUNT: usize> {
    pub scan_time_ticks: u64,
    pub matrix: [[Bit; COL_COUNT]; ROW_COUNT],
}

impl<const ROW_COUNT: usize, const COL_COUNT: usize> Result<ROW_COUNT, COL_COUNT> {
    /// Every cell is released and without an edge.
    pub open spec fn all_released(self) -> bool {
        forall|i: int, j: int|
            0 <= i < ROW_COUNT && 0 <= j < COL_COUNT ==> (#[trigger] self.matrix[i][j])
                == Bit::released()
    }

    /// The snapshot is what a scan at `now_ticks` gives when the lines read
    /// `pressed` and the scan before gave `previous`.
    pub open spec fn is_scan_of(
        self,
        previous: Self,
        pressed: [[bool; COL_COUNT]; ROW_COUNT],
        now_ticks: u64,
    ) -> bool {
        &&& self.scan_time_ticks == now_ticks
        &&& forall|i: int, j: int|
            0 <= i < ROW_COUNT && 0 <= j < COL_COUNT ==> (#[trigger] self.matrix[i][j])
                == Bit::sampled(previous.matrix[i][j].pressed, pressed[i][j])
    }

    /// The snapshot joins a left and a right half of `half` columns each:
    /// the left half as it is, the right half mirrored into the last
    /// columns. A column between the two is released.
    pub open spec fn is_merge_of<const HALF: usize>(
        self,
        left: Result<ROW_COUNT, HALF>,
        right: Result<ROW_COUNT, HALF>,
        scan_time_ticks: u64,
    ) -> bool {
        &&& self.scan_time_ticks == scan_time_ticks
        &&& forall|i: int, j: int|
            0 <= i < ROW_COUNT && 0 <= j < COL_COUNT ==> (#[trigger] self.matrix[i][j]) == (if j
                < HALF {
                left.matrix[i][j]
            } else if j >= COL_COUNT - HALF {
                right.matrix[i][COL_COUNT - 1 - j]
            } else {
                Bit::released()
            })
    }
}

impl<const ROW_COUNT: usize, const COL_COUNT: usize> Default for Result<ROW_COUNT, COL_COUNT> {
    fn default() -> (result: Self)
        ensures
            result.scan_time_ticks == 0,
            result.all_released(),
    {
        Result {
            scan_time_ticks: 0,
            matrix: [[Bit { edge: Edge::NoEdge, pressed: false }; COL_COUNT]; ROW_COUNT],
        }
    }
}

/// The snapshot of a scan: every cell with its sample and the edge since
/// `previous`, stamped `now_ticks`.
fn scan_step<const ROW_COUNT: usize, const COL_COUNT: usize>(
    previous: &Result<ROW_COUNT, COL_COUNT>,
    pressed: &[[bool; COL_COUNT]; ROW_COUNT],
    now_ticks: u64,
) -> (result: Result<ROW_COUNT, COL_COUNT>)
    ensures
        result.is_scan_of(*previous, *pressed, now_ticks),
{
    let mut result = Result::<ROW_COUNT, COL_COUNT>::default();
    let mut i: usize = 0;
    while i < ROW_COUNT
        invariant
            i <= ROW_COUNT,
            forall|a: int, b: int|
                0 <= a < i && 0 <= b < COL_COUNT ==> (#[trigger] result.matrix[a][b])
                    == Bit::sampled(previous.matrix[a][b].pressed, pressed[a][b]),
        decreases ROW_COUNT - i,
    {
        let mut j: usize = 0;
        while j < COL_COUNT
            invariant
                i < ROW_COUNT,
                j <= COL_COUNT,
                forall|a: int, b: int|
                    0 <= a < i && 0 <= b < COL_COUNT ==> (#[trigger] result.matrix[a][b])
                        == Bit::sampled(previous.matrix[a][b].pressed, pressed[a][b]),
                forall|b: int|
                    0 <= b < j ==> (#[trigger] result.matrix[i as int][b]) == Bit::sampled(
                        previous.matrix[i as int][b].pressed,
                        pressed[i as int][b],
                    ),
            decreases COL_COUNT - j,
        {
            let down = pressed[i][j];
            result.matrix[i][j] = Bit {
                edge: Edge::from((previous.matrix[i][j].pressed, down)),
                pressed: down,
            };
            j += 1;
        }
        i += 1;
    }
    result.scan_time_ticks = now_ticks;
    result
}

/// A matrix whose columns are driven and whose rows are read.
pub struct BasicVerticalSwitchMatrix<const ROW_COUNT: usize, const COL_COUNT: usize> {
    previous_result: Result<ROW_COUNT, COL_COUNT>,
}

impl<const ROW_COUNT: usize, const COL_COUNT: usize> BasicVerticalSwitchMatrix<
    ROW_COUNT,
    COL_COUNT,
> {
    /// The snapshot of the last scan.
    pub closed spec fn previous(self) -> Result<ROW_COUNT, COL_COUNT> {
        self.previous_result
    }

    pub fn new() -> (scanner: Self)
        ensures
            scanner.previous().scan_time_ticks == 0,
            scanner.previous().all_released(),
    {
        BasicVerticalSwitchMatrix { previous_result: Result::default() }
    }

    /// Takes the samples of one pass over the lines, read at `now_ticks`,
    /// and gives the snapshot, which the scanner keeps for the next scan.
    pub fn scan(&mut self, pressed: &[[bool; COL_COUNT]; ROW_COUNT], now_ticks: u64) -> (result:
        Result<ROW_COUNT, COL_COUNT>)
        ensures
            result.is_scan_of(old(self).previous(), *pressed, now_ticks),
            final(self).previous() == result,
    {
        let result = scan_step(&self.previous_result, pressed, now_ticks);
        self.previous_result = result;
        result
    }
}

/// A matrix whose rows are driven and whose columns are read.
pub struct BasicHorizontalSwitchMatrix<const ROW_COUNT: usize, const COL_COUNT: usize> {
    previous_result: Result<ROW_COUNT, COL_COUNT>,
}

impl<const ROW_COUNT: usize, const COL_COUNT: usize> BasicHorizontalSwitchMatrix<
    ROW_COUNT,
    COL_COUNT,
> {
    /// The snapshot of the last scan.
    pub closed spec fn previous(self) -> Result<ROW_COUNT, COL_COUNT> {
        self.previous_result
    }

    pub fn new() -> (scanner: Self)
        ensures
            scanner.previous().scan_time_ticks == 0,
            scanner.previous().all_released(),
    {
        BasicHorizontalSwitchMatrix { previous_result: Result::default() }
    }

    /// Takes the samples of one pass over the lines, read at `now_ticks`,
    /// and gives the snapshot, which the scanner keeps for the next scan.
    pub fn scan(&mut self, pressed: &[[bool; COL_COUNT]; ROW_COUNT], now_ticks: u64) -> (result:
        Result<ROW_COUNT, COL_COUNT>)
        ensures
            result.is_scan_of(old(self).previous(), *pressed, now_ticks),
            final(self).previous() == result,
    {
        let result = scan_step(&self.previous_result, pressed, now_ticks);
        self.previous_result = result;
        result
    }
}

/// While the clock does not go back, the time stamps of successive scans of
/// one scanner do not go back either.
pub proof fn lemma_scan_times_monotonic<const ROW_COUNT: usize, const COL_COUNT: usize>(
    before: Result<ROW_COUNT, COL_COUNT>,
    first: Result<ROW_COUNT, COL_COUNT>,
    second: Result<ROW_COUNT, COL_COUNT>,
    first_pressed: [[bool; COL_COUNT]; ROW_COUNT],
    second_pressed: [[bool; COL_COUNT]; ROW_COUNT],
    first_ticks: u64,
    second_ticks: u64,
)
    requires
        first.is_scan_of(before, first_pressed, first_ticks),
        second.is_scan_of(first, second_pressed, second_ticks),
        first_ticks <= second_ticks,
    ensures
        first.scan_time_ticks <= second.scan_time_ticks,
{
}

/// In every cell of a scan the edge is rising exactly where the cell was
/// released and is pressed, falling exactly where it was pressed and is
/// released, and absent otherwise.
pub proof fn lemma_scan_edges<const ROW_COUNT: usize, const COL_COUNT: usize>(
    previous: Result<ROW_COUNT, COL_COUNT>,
    result: Result<ROW_COUNT, COL_COUNT>,
    pressed: [[bool; COL_COUNT]; ROW_COUNT],
    now_ticks: u64,
    i: int,
    j: int,
)
    requires
        result.is_scan_of(previous, pressed, now_ticks),
        0 <= i < ROW_COUNT,
        0 <= j < COL_COUNT,
    ensures
        result.matrix[i][j].pressed == pressed[i][j],
        result.matrix[i][j].edge == Edge::Rising <==> !previous.matrix[i][j].pressed
            && result.matrix[i][j].pressed,
        result.matrix[i][j].edge == Edge::Falling <==> previous.matrix[i][j].pressed
            && !result.matrix[i][j].pressed,
        result.matrix[i][j].edge == Edge::NoEdge <==> previous.matrix[i][j].pressed
            == result.matrix[i][j].pressed,
{
    assert(result.matrix[i][j] == Bit::sampled(previous.matrix[i][j].pressed, pressed[i][j]));
}

/// The two halves of a split matrix joined into one snapshot, stamped
/// `scan_time_ticks`.
pub fn merge_halves<const ROW_COUNT: usize, const HALF: usize, const COL_COUNT: usize>(
    left: &Result<ROW_COUNT, HALF>,
    right: &Result<ROW_COUNT, HALF>,
    scan_time_ticks: u64,
) -> (merged: Result<ROW_COUNT, COL_COUNT>)
    requires
        HALF == COL_COUNT / 2,
    ensures
        merged.is_merge_of(*left, *right, scan_time_ticks),
{
    let mut merged = Result::<ROW_COUNT, COL_COUNT>::default();
    let mut i: usize = 0;
    while i < ROW_COUNT
        invariant
            i <= ROW_COUNT,
            HALF == COL_COUNT / 2,
            forall|a: int, b: int|
                i <= a < ROW_COUNT && 0 <= b < COL_COUNT ==> (#[trigger] merged.matrix[a][b])
                    == Bit::released(),
            forall|a: int, b: int|
                0 <= a < i && 0 <= b < COL_COUNT ==> (#[trigger] merged.matrix[a][b]) == (if b
                    < HALF {
                    left.matrix[a][b]
                } else if b >= COL_COUNT - HALF {
                    right.matrix[a][COL_COUNT - 1 - b]
                } else {
                    Bit::released()
                }),
        decreases ROW_COUNT - i,
    {
        let mut j: usize = 0;
        while j < HALF
            invariant
                i < ROW_COUNT,
                j <= HALF,
                HALF == COL_COUNT / 2,
                forall|a: int, b: int|
                    i < a < ROW_COUNT && 0 <= b < COL_COUNT ==> (#[trigger] merged.matrix[a][b])
                        == Bit::released(),
                forall|a: int, b: int|
                    0 <= a < i && 0 <= b < COL_COUNT ==> (#[trigger] merged.matrix[a][b]) == (if b
                        < HALF {
                        left.matrix[a][b]
                    } else if b >= COL_COUNT - HALF {
                        right.matrix[a][COL_COUNT - 1 - b]
                    } else {
                        Bit::released()
                    }),
                forall|b: int|
                    0 <= b < COL_COUNT ==> (#[trigger] merged.matrix[i as int][b]) == (if b < j {
                        left.matrix[i as int][b]
                    } else if b >= COL_COUNT - j {
                        right.matrix[i as int][COL_COUNT - 1 - b]
                    } else {
                        Bit::released()
                    }),
            decreases HALF - j,
        {
            merged.matrix[i][j] = left.matrix[i][j];
            merged.matrix[i][COL_COUNT - j - 1] = right.matrix[i][j];
            j += 1;
        }
        i += 1;
    }
    merged.scan_time_ticks = scan_time_ticks;
    merged
}

/// The service of the slave that scans its half of the matrix.
pub const SERVICE_ID_KEY_MATRIX: crate::remote::ServiceId = 0x10;

/// The method of that service that scans.
pub const METHOD_ID_KEY_MATRIX_SCAN: crate::remote::MethodId = 0x11;

/// One half of a split matrix. On the master it joins its own snapshots
/// with those of the other half; on the slave it serves its snapshots to
/// the master.
pub struct SplitSwitchMatrix<const ROW_COUNT: usize, const HALF_COL_COUNT: usize> {
    local_matrix: BasicVerticalSwitchMatrix<ROW_COUNT, HALF_COL_COUNT>,
    remote_result: Result<ROW_COUNT, HALF_COL_COUNT>,
}

impl<const ROW_COUNT: usize, const HALF_COL_COUNT: usize> SplitSwitchMatrix<
    ROW_COUNT,
    HALF_COL_COUNT,
> {
    /// The scanner of the own half.
    pub closed spec fn local_matrix(self) -> BasicVerticalSwitchMatrix<ROW_COUNT, HALF_COL_COUNT> {
        self.local_matrix
    }

    /// The last snapshot that came from the other half.
    pub closed spec fn remote_result(self) -> Result<ROW_COUNT, HALF_COL_COUNT> {
        self.remote_result
    }

    /// The two halves by their sides: the own half is `local`, the other
    /// `remote`.
    pub open spec fn sides(
        side: Side,
        local: Result<ROW_COUNT, HALF_COL_COUNT>,
        remote: Result<ROW_COUNT, HALF_COL_COUNT>,
    ) -> (Result<ROW_COUNT, HALF_COL_COUNT>, Result<ROW_COUNT, HALF_COL_COUNT>) {
        match side {
            Side::Left => (local, remote),
            Side::Right => (remote, local),
        }
    }

    /// Nothing has come from the other half yet: its snapshot is all
    /// released.
    pub fn new(local_matrix: BasicVerticalSwitchMatrix<ROW_COUNT, HALF_COL_COUNT>) -> (matrix: Self)
        ensures
            matrix.local_matrix() == local_matrix,
            matrix.remote_result().scan_time_ticks == 0,
            matrix.remote_result().all_released(),
    {
        SplitSwitchMatrix { local_matrix, remote_result: Result::default() }
    }

    pub fn get_service_id(&self) -> (service_id: crate::remote::ServiceId)
        ensures
            service_id == SERVICE_ID_KEY_MATRIX,
    {
        SERVICE_ID_KEY_MATRIX
    }

    /// Scans the own half.
    pub fn scan_local(
        &mut self,
        pressed: &[[bool; HALF_COL_COUNT]; ROW_COUNT],
        now_ticks: u64,
    ) -> (result: Result<ROW_COUNT, HALF_COL_COUNT>)
        ensures
            result.is_scan_of(old(self).local_matrix().previous(), *pressed, now_ticks),
            final(self).local_matrix().previous() == result,
            final(self).remote_result() == old(self).remote_result(),
    {
        self.local_matrix.scan(pressed, now_ticks)
    }

    /// Joins a snapshot of the own half with that of the other half into
    /// the snapshot of the whole matrix, stamped as the own half. Where the
    /// other half gave no answer, its last snapshot stands in. The cells of
    /// the other half are taken as they came, edges too.
    pub fn scan<const COL_COUNT: usize>(
        &mut self,
        side: Side,
        local_result: &Result<ROW_COUNT, HALF_COL_COUNT>,
        remote_response: Option<Result<ROW_COUNT, HALF_COL_COUNT>>,
    ) -> (merged: Result<ROW_COUNT, COL_COUNT>)
        requires
            HALF_COL_COUNT == COL_COUNT / 2,
        ensures
            final(self).local_matrix() == old(self).local_matrix(),
            final(self).remote_result() == (match remote_response {
                Some(remote_result) => remote_result,
                None => old(self).remote_result(),
            }),
            merged.is_merge_of(
                Self::sides(side, *local_result, final(self).remote_result()).0,
                Self::sides(side, *local_result, final(self).remote_result()).1,
                local_result.scan_time_ticks,
            ),
    {
        match remote_response {
            Some(remote_result) => {
                self.remote_result = remote_result;
            },
            None => {},
        }
        match side {
            Side::Left => merge_halves(
                local_result,
                &self.remote_result,
                local_result.scan_time_ticks,
            ),
            Side::Right => merge_halves(
                &self.remote_result,
                local_result,
                local_result.scan_time_ticks,
            ),
        }
    }

    /// Whether serving a method takes a scan of the lines: the method that
    /// scans does, no other does.
    pub fn scans(method_id: crate::remote::MethodId) -> (needed: bool)
        ensures
            needed == (method_id == METHOD_ID_KEY_MATRIX_SCAN),
    {
        method_id == METHOD_ID_KEY_MATRIX_SCAN
    }

    /// Whether answering a request takes a scan of the lines: a request to
    /// this service for the method that scans does, no other does.
    pub fn wants_scan(request: &crate::remote::Request) -> (needed: bool)
        ensures
            needed == (request.service_id == SERVICE_ID_KEY_MATRIX && request.method_id
                == METHOD_ID_KEY_MATRIX_SCAN),
    {
        request.service_id == SERVICE_ID_KEY_MATRIX && Self::scans(request.method_id)
    }

    /// Answers a request that reached the slave. A request to another
    /// service is answered as a method that is not implemented, and leaves
    /// the matrix as it is. A request to this service is answered as
    /// `dispatch` answers its method and payload.
    pub fn serve(
        &mut self,
        request: &crate::remote::Request,
        pressed: &[[bool; HALF_COL_COUNT]; ROW_COUNT],
        now_ticks: u64,
    ) -> (response: core::result::Result<Vec<u8>, crate::remote::Error>)
        ensures
            final(self).remote_result() == old(self).remote_result(),
            !(request.service_id == SERVICE_ID_KEY_MATRIX && request.method_id
                == METHOD_ID_KEY_MATRIX_SCAN) ==> response == Err::<Vec<u8>, crate::remote::Error>(
                crate::remote::Error::MethodUnimplemented,
            ) && final(self).local_matrix() == old(self).local_matrix(),
            request.service_id == SERVICE_ID_KEY_MATRIX && request.method_id
                == METHOD_ID_KEY_MATRIX_SCAN ==> {
                let result = final(self).local_matrix().previous();
                &&& result.is_scan_of(old(self).local_matrix().previous(), *pressed, now_ticks)
                &&& response matches Ok(bytes)
                &&& bytes@ == wire::postcard_bytes(result)
                &&& codec::postcard_decoded(bytes@, usize::BITS) == Some(
                    (result.scan_time_ticks, packing::packed(packing::cells(result.matrix))),
                )
            },
    {
        if request.service_id == SERVICE_ID_KEY_MATRIX {
            self.dispatch(request.method_id, request.payload.as_slice(), pressed, now_ticks)
        } else {
            Err(crate::remote::Error::MethodUnimplemented)
        }
    }

    /// Serves a request to the service, whatever its payload holds. The
    /// method that scans takes the samples of the own half, read at
    /// `now_ticks`, scans once, and returns the snapshot as bytes. Any other
    /// method is not implemented: the samples are not looked at and the
    /// matrix stays as it is.
    pub fn dispatch(
        &mut self,
        method_id: crate::remote::MethodId,
        request: &[u8],
        pressed: &[[bool; HALF_COL_COUNT]; ROW_COUNT],
        now_ticks: u64,
    ) -> (response: core::result::Result<Vec<u8>, crate::remote::Error>)
        ensures
            final(self).remote_result() == old(self).remote_result(),
            method_id != METHOD_ID_KEY_MATRIX_SCAN ==> response == Err::<
                Vec<u8>,
                crate::remote::Error,
            >(crate::remote::Error::MethodUnimplemented) && final(self).local_matrix() == old(
                self,
            ).local_matrix(),
            method_id == METHOD_ID_KEY_MATRIX_SCAN ==> {
                let result = final(self).local_matrix().previous();
                &&& result.is_scan_of(old(self).local_matrix().previous(), *pressed, now_ticks)
                &&& response matches Ok(bytes)
                &&& bytes@ == wire::postcard_bytes(result)
                &&& codec::postcard_decoded(bytes@, usize::BITS) == Some(
                    (result.scan_time_ticks, packing::packed(packing::cells(result.matrix))),
                )
            },
    {
        if method_id == METHOD_ID_KEY_MATRIX_SCAN {
            let result = self.scan_local(pressed, now_ticks);
            result.serialize()
        } else {
            Err(crate::remote::Error::MethodUnimplemented)
        }
    }
}

/// Joining a local row `[a, b, c]` with a remote row `[d, e, f]` gives
/// `[a, b, c, f, e, d]` on the left side and `[d, e, f, c, b, a]` on the
/// right side.
pub proof fn lemma_merge_reconstruction(
    side: Side,
    local: Result<1, 3>,
    remote: Result<1, 3>,
    merged: Result<1, 6>,
)
    requires
        merged.is_merge_of(
            SplitSwitchMatrix::<1, 3>::sides(side, local, remote).0,
            SplitSwitchMatrix::<1, 3>::sides(side, local, remote).1,
            local.scan_time_ticks,
        ),
    ensures
        merged.scan_time_ticks == local.scan_time_ticks,
        side == Side::Left ==> merged.matrix[0]@ == seq![
            local.matrix[0][0],
            local.matrix[0][1],
            local.matrix[0][2],
            remote.matrix[0][2],
            remote.matrix[0][1],
            remote.matrix[0][0],
        ],
        side == Side::Right ==> merged.matrix[0]@ == seq![
            remote.matrix[0][0],
            remote.matrix[0][1],
            remote.matrix[0][2],
            local.matrix[0][2],
            local.matrix[0][1],
            local.matrix[0][0],
        ],
{
    assert(merged.matrix[0][0] == merged.matrix[0][0]);
    assert(merged.matrix[0][1] == merged.matrix[0][1]);
    assert(merged.matrix[0][2] == merged.matrix[0][2]);
    assert(merged.matrix[0][3] == merged.matrix[0][3]);
    assert(merged.matrix[0][4] == merged.matrix[0][4]);
    assert(merged.matrix[0][5] == merged.matrix[0][5]);
    if side == Side::Left {
        assert(merged.matrix[0]@ =~= seq![
            local.matrix[0][0],
            local.matrix[0][1],
            local.matrix[0][2],
            remote.matrix[0][2],
            remote.matrix[0][1],
            remote.matrix[0][0],
        ]);
    } else {
        assert(merged.matrix[0]@ =~= seq![
            remote.matrix[0][0],
            remote.matrix[0][1],
            remote.matrix[0][2],
            local.matrix[0][2],
            local.matrix[0][1],
            local.matrix[0][0],
        ]);
    }
}

} // verus!
