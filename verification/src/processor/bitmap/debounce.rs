use vstd::prelude::*;

use crate::key::Edge;
use crate::matrix::{Bit, Result as Bitmap};
use crate::processor::{BitmapProcessor, Result};

verus! {

/// The window after a transition in which a cell is held still: ten
/// milliseconds, in ticks of a microsecond.
pub const DEFAULT_DEBOUNCE_TICKS: u64 = 10_000;

/// What the processor remembers of a cell.
#[derive(Clone, Copy, Debug, PartialEq, Eq, Structural)]
pub struct State {
    /// The time of the last transition that was let through.
    pub pressed_ticks: u64,
    /// The pressed state since that transition.
    pub pressed: bool,
}

/// The ticks between the last transition of a cell and a scan; none where
/// the scan is stamped before the transition.
pub open spec fn elapsed(state: State, scan_time_ticks: u64) -> int {
    if scan_time_ticks >= state.pressed_ticks {
        scan_time_ticks - state.pressed_ticks
    } else {
        0
    }
}

/// What the processor makes of one cell. Inside the window it holds the
/// cell at its stable state, without an edge. Outside the window an edge is
/// a transition: it goes through, and the window starts anew.
pub open spec fn debounced(state: State, bit: Bit, scan_time_ticks: u64, delay_ticks: u64) -> (
    State,
    Bit,
) {
    if elapsed(state, scan_time_ticks) <= delay_ticks {
        (state, Bit { edge: Edge::NoEdge, pressed: state.pressed })
    } else if bit.edge == Edge::Rising || bit.edge == Edge::Falling {
        (State { pressed_ticks: scan_time_ticks, pressed: bit.pressed }, bit)
    } else {
        (state, bit)
    }
}

/// The states of a cell and what the processor gives for it over a run of
/// scans, each a sample with its time.
pub open spec fn debounced_run(state: State, scans: Seq<(Bit, u64)>, delay_ticks: u64) -> (
    State,
    Seq<(Bit, u64)>,
)
    decreases scans.len(),
{
    if scans.len() == 0 {
        (state, Seq::empty())
    } else {
        let (before, given) = debounced_run(state, scans.drop_last(), delay_ticks);
        let (bit, scan_time_ticks) = scans.last();
        let (after, out) = debounced(before, bit, scan_time_ticks, delay_ticks);
        (after, given.push((out, scan_time_ticks)))
    }
}

/// What the processor gives for a cell, and the state it is left in, are
/// the same whether it is given the sample or what it made of the sample.
pub proof fn lemma_debounced_idempotent(
    state: State,
    bit: Bit,
    scan_time_ticks: u64,
    delay_ticks: u64,
)
    ensures
        debounced(
            state,
            debounced(state, bit, scan_time_ticks, delay_ticks).1,
            scan_time_ticks,
            delay_ticks,
        ) == debounced(state, bit, scan_time_ticks, delay_ticks),
{
}

/// A run of scans that has gone through the processor goes through a
/// second time unchanged, and leaves the processor in the same state.
pub proof fn lemma_debounced_run_idempotent(
    state: State,
    scans: Seq<(Bit, u64)>,
    delay_ticks: u64,
)
    ensures
        debounced_run(state, debounced_run(state, scans, delay_ticks).1, delay_ticks)
            == debounced_run(state, scans, delay_ticks),
    decreases scans.len(),
{
    if scans.len() > 0 {
        let (before, given) = debounced_run(state, scans.drop_last(), delay_ticks);
        let (bit, scan_time_ticks) = scans.last();
        let (after, out) = debounced(before, bit, scan_time_ticks, delay_ticks);
        lemma_debounced_run_idempotent(state, scans.drop_last(), delay_ticks);
        lemma_debounced_idempotent(before, bit, scan_time_ticks, delay_ticks);
        let once = given.push((out, scan_time_ticks));
        assert(once.drop_last() == given);
        assert(once.last() == (out, scan_time_ticks));
    }
}

/// Suppresses the bouncing of the switches: after a transition of a cell,
/// rising or falling, the cell is held still for a while.
pub struct KeyRisingFallingDebounceProcessor<const ROW_COUNT: usize, const COL_COUNT: usize> {
    delay_ticks: u64,
    previous_states: [[State; COL_COUNT]; ROW_COUNT],
}

impl<const ROW_COUNT: usize, const COL_COUNT: usize> KeyRisingFallingDebounceProcessor<
    ROW_COUNT,
    COL_COUNT,
> {
    /// The length of the window in ticks.
    pub closed spec fn delay_ticks(self) -> u64 {
        self.delay_ticks
    }

    /// What the processor remembers of the cell at row `i`, column `j`.
    pub closed spec fn state(self, i: int, j: int) -> State {
        self.previous_states[i][j]
    }

    /// Two processors remember the same: the same window and the same
    /// state of every cell.
    pub open spec fn agrees(self, other: Self) -> bool {
        &&& self.delay_ticks() == other.delay_ticks()
        &&& forall|i: int, j: int|
            0 <= i < ROW_COUNT && 0 <= j < COL_COUNT ==> #[trigger] self.state(i, j)
                == other.state(i, j)
    }

    /// What `process` makes of a processor and a snapshot: `after` and
    /// `output` are what it leaves of `self` and `input`.
    pub open spec fn processes(
        self,
        input: Bitmap<ROW_COUNT, COL_COUNT>,
        after: Self,
        output: Bitmap<ROW_COUNT, COL_COUNT>,
    ) -> bool {
        &&& after.delay_ticks() == self.delay_ticks()
        &&& output.scan_time_ticks == input.scan_time_ticks
        &&& forall|i: int, j: int|
            #![trigger after.state(i, j)]
            #![trigger output.matrix[i][j]]
            0 <= i < ROW_COUNT && 0 <= j < COL_COUNT ==> (after.state(i, j), output.matrix[i][j])
                == debounced(
                self.state(i, j),
                input.matrix[i][j],
                input.scan_time_ticks,
                self.delay_ticks(),
            )
    }

    /// A run of `process`: processor `k` of `states` is given snapshot `k`
    /// of `inputs`, and leaves processor `k + 1` and snapshot `k` of
    /// `outputs`.
    pub open spec fn runs(
        states: Seq<Self>,
        inputs: Seq<Bitmap<ROW_COUNT, COL_COUNT>>,
        outputs: Seq<Bitmap<ROW_COUNT, COL_COUNT>>,
    ) -> bool {
        &&& states.len() == inputs.len() + 1
        &&& outputs.len() == inputs.len()
        &&& forall|k: int|
            0 <= k < inputs.len() ==> (#[trigger] states[k]).processes(
                inputs[k],
                states[k + 1],
                outputs[k],
            )
    }

    /// A processor that has seen no transition: every cell released, at
    /// tick 0.
    pub fn new(delay_ticks: u64) -> (processor: Self)
        ensures
            processor.delay_ticks() == delay_ticks,
            forall|i: int, j: int|
                0 <= i < ROW_COUNT && 0 <= j < COL_COUNT ==> #[trigger] processor.state(i, j) == (
                State { pressed_ticks: 0, pressed: false }),
    {
        KeyRisingFallingDebounceProcessor {
            delay_ticks,
            previous_states: [[State { pressed_ticks: 0, pressed: false }; COL_COUNT]; ROW_COUNT],
        }
    }

    /// Works through a snapshot in place, cell by cell. The time of the
    /// snapshot stays.
    fn debounce(&mut self, bitmap: &mut Bitmap<ROW_COUNT, COL_COUNT>)
        ensures
            final(self).delay_ticks() == old(self).delay_ticks(),
            final(bitmap).scan_time_ticks == old(bitmap).scan_time_ticks,
            forall|i: int, j: int|
                #![trigger final(self).state(i, j)]
                #![trigger final(bitmap).matrix[i][j]]
                0 <= i < ROW_COUNT && 0 <= j < COL_COUNT ==> (
                    final(self).state(i, j),
                    final(bitmap).matrix[i][j],
                ) == debounced(
                old(self).state(i, j),
                old(bitmap).matrix[i][j],
                old(bitmap).scan_time_ticks,
                old(self).delay_ticks(),
            ),
    {
        let scan_time_ticks = bitmap.scan_time_ticks;
        let mut i: usize = 0;
        while i < ROW_COUNT
            invariant
                i <= ROW_COUNT,
                self.delay_ticks == old(self).delay_ticks,
                bitmap.scan_time_ticks == old(bitmap).scan_time_ticks,
                scan_time_ticks == bitmap.scan_time_ticks,
                forall|a: int, b: int|
                    #![trigger self.previous_states[a][b]]
                    #![trigger bitmap.matrix[a][b]]
                    i <= a < ROW_COUNT && 0 <= b < COL_COUNT ==> self.previous_states[a][b] == old(
                        self,
                    ).previous_states[a][b] && bitmap.matrix[a][b] == old(bitmap).matrix[a][b],
                forall|a: int, b: int|
                    #![trigger self.previous_states[a][b]]
                    #![trigger bitmap.matrix[a][b]]
                    0 <= a < i && 0 <= b < COL_COUNT ==> (
                        self.previous_states[a][b],
                        bitmap.matrix[a][b],
                    ) == debounced(
                    old(self).previous_states[a][b],
                    old(bitmap).matrix[a][b],
                    scan_time_ticks,
                    self.delay_ticks,
                ),
            decreases ROW_COUNT - i,
        {
            let mut j: usize = 0;
            while j < COL_COUNT
                invariant
                    i < ROW_COUNT,
                    j <= COL_COUNT,
                    self.delay_ticks == old(self).delay_ticks,
                    bitmap.scan_time_ticks == old(bitmap).scan_time_ticks,
                    scan_time_ticks == bitmap.scan_time_ticks,
                    forall|a: int, b: int|
                        #![trigger self.previous_states[a][b]]
                        #![trigger bitmap.matrix[a][b]]
                        i < a < ROW_COUNT && 0 <= b < COL_COUNT ==> self.previous_states[a][b]
                            == old(self).previous_states[a][b] && bitmap.matrix[a][b] == old(
                            bitmap,
                        ).matrix[a][b],
                    forall|b: int|
                        #![trigger self.previous_states[i as int][b]]
                        #![trigger bitmap.matrix[i as int][b]]
                        j <= b < COL_COUNT ==> self.previous_states[i as int][b] == old(
                            self,
                        ).previous_states[i as int][b] && bitmap.matrix[i as int][b] == old(
                            bitmap,
                        ).matrix[i as int][b],
                    forall|a: int, b: int|
                        #![trigger self.previous_states[a][b]]
                        #![trigger bitmap.matrix[a][b]]
                        0 <= a < i && 0 <= b < COL_COUNT ==> (
                            self.previous_states[a][b],
                            bitmap.matrix[a][b],
                        ) == debounced(
                        old(self).previous_states[a][b],
                        old(bitmap).matrix[a][b],
                        scan_time_ticks,
                        self.delay_ticks,
                    ),
                    forall|b: int|
                        #![trigger self.previous_states[i as int][b]]
                        #![trigger bitmap.matrix[i as int][b]]
                        0 <= b < j ==> (
                            self.previous_states[i as int][b],
                            bitmap.matrix[i as int][b],
                        ) == debounced(
                        old(self).previous_states[i as int][b],
                        old(bitmap).matrix[i as int][b],
                        scan_time_ticks,
                        self.delay_ticks,
                    ),
                decreases COL_COUNT - j,
            {
                let state = self.previous_states[i][j];
                let bit = bitmap.matrix[i][j];
                let since = scan_time_ticks.saturating_sub(state.pressed_ticks);
                if since <= self.delay_ticks {
                    bitmap.matrix[i][j] = Bit { edge: Edge::NoEdge, pressed: state.pressed };
                } else {
                    match bit.edge {
                        Edge::NoEdge => {},
                        _ => {
                            self.previous_states[i][j] = State {
                                pressed_ticks: scan_time_ticks,
                                pressed: bit.pressed,
                            };
                        },
                    }
                }
                j += 1;
            }
            i += 1;
        }
    }
}

impl<const ROW_COUNT: usize, const COL_COUNT: usize> BitmapProcessor<
    ROW_COUNT,
    COL_COUNT,
> for KeyRisingFallingDebounceProcessor<ROW_COUNT, COL_COUNT> {
    fn process(&mut self, bitmap: &mut Bitmap<ROW_COUNT, COL_COUNT>) -> (result: Result)
        ensures
            result is Ok,
            old(self).processes(*old(bitmap), *final(self), *final(bitmap)),
            final(self).delay_ticks() == old(self).delay_ticks(),
            final(bitmap).scan_time_ticks == old(bitmap).scan_time_ticks,
            forall|i: int, j: int|
                #![trigger final(self).state(i, j)]
                #![trigger final(bitmap).matrix[i][j]]
                0 <= i < ROW_COUNT && 0 <= j < COL_COUNT ==> (
                    final(self).state(i, j),
                    final(bitmap).matrix[i][j],
                ) == debounced(
                    old(self).state(i, j),
                    old(bitmap).matrix[i][j],
                    old(bitmap).scan_time_ticks,
                    old(self).delay_ticks(),
                ),
    {
        self.debounce(bitmap);
        Ok(())
    }
}

/// Two processors that remember the same make the same of a snapshot, and
/// remember the same afterwards.
pub proof fn lemma_process_deterministic<const ROW_COUNT: usize, const COL_COUNT: usize>(
    first: KeyRisingFallingDebounceProcessor<ROW_COUNT, COL_COUNT>,
    second: KeyRisingFallingDebounceProcessor<ROW_COUNT, COL_COUNT>,
    input: Bitmap<ROW_COUNT, COL_COUNT>,
    first_after: KeyRisingFallingDebounceProcessor<ROW_COUNT, COL_COUNT>,
    second_after: KeyRisingFallingDebounceProcessor<ROW_COUNT, COL_COUNT>,
    first_output: Bitmap<ROW_COUNT, COL_COUNT>,
    second_output: Bitmap<ROW_COUNT, COL_COUNT>,
)
    requires
        first.agrees(second),
        first.processes(input, first_after, first_output),
        second.processes(input, second_after, second_output),
    ensures
        first_after.agrees(second_after),
        first_output == second_output,
{
    assert forall|i: int, j: int| 0 <= i < ROW_COUNT && 0 <= j < COL_COUNT implies (
    #[trigger] first_after.state(i, j)) == second_after.state(i, j)
        && first_output.matrix[i][j] == second_output.matrix[i][j] by {
        assert(first.state(i, j) == second.state(i, j));
        assert(first_output.matrix[i][j] == debounced(
            first.state(i, j),
            input.matrix[i][j],
            input.scan_time_ticks,
            first.delay_ticks(),
        ).1);
        assert(second_output.matrix[i][j] == debounced(
            second.state(i, j),
            input.matrix[i][j],
            input.scan_time_ticks,
            second.delay_ticks(),
        ).1);
    }
    assert forall|i: int| 0 <= i < ROW_COUNT implies first_output.matrix[i]
        == second_output.matrix[i] by {
        assert forall|j: int| 0 <= j < COL_COUNT implies first_output.matrix[i][j]
            == second_output.matrix[i][j] by {
            assert(first_after.state(i, j) == second_after.state(i, j));
        }
        assert(first_output.matrix[i] =~= second_output.matrix[i]);
    }
    assert(first_output.matrix =~= second_output.matrix);
}

/// Two processors that start with the same window and the same memory, as
/// two new processors with the same window do, and are given the same run
/// of snapshots, leave the same snapshot at every step.
pub proof fn lemma_runs_deterministic<const ROW_COUNT: usize, const COL_COUNT: usize>(
    first_states: Seq<KeyRisingFallingDebounceProcessor<ROW_COUNT, COL_COUNT>>,
    second_states: Seq<KeyRisingFallingDebounceProcessor<ROW_COUNT, COL_COUNT>>,
    inputs: Seq<Bitmap<ROW_COUNT, COL_COUNT>>,
    first_outputs: Seq<Bitmap<ROW_COUNT, COL_COUNT>>,
    second_outputs: Seq<Bitmap<ROW_COUNT, COL_COUNT>>,
    steps: int,
)
    requires
        KeyRisingFallingDebounceProcessor::runs(first_states, inputs, first_outputs),
        KeyRisingFallingDebounceProcessor::runs(second_states, inputs, second_outputs),
        first_states[0].agrees(second_states[0]),
        0 <= steps <= inputs.len(),
    ensures
        first_states[steps].agrees(second_states[steps]),
        forall|k: int| 0 <= k < steps ==> #[trigger] first_outputs[k] == second_outputs[k],
    decreases steps,
{
    if steps > 0 {
        lemma_runs_deterministic(
            first_states,
            second_states,
            inputs,
            first_outputs,
            second_outputs,
            steps - 1,
        );
        let k = steps - 1;
        assert(first_states[k].processes(inputs[k], first_states[k + 1], first_outputs[k]));
        assert(second_states[k].processes(inputs[k], second_states[k + 1], second_outputs[k]));
        lemma_process_deterministic(
            first_states[k],
            second_states[k],
            inputs[k],
            first_states[k + 1],
            second_states[k + 1],
            first_outputs[k],
            second_outputs[k],
        );
    }
}

/// A cell is pressed after its window has gone by, bounces while the new
/// window lasts, and is held down, without an edge, from then on: the
/// press goes through with its rising edge, and every scan after it leaves
/// the cell pressed and without an edge. So there is one rising edge and
/// no falling edge.
pub proof fn lemma_bounce_leaves_one_rising(
    state: State,
    scans: Seq<(Bit, u64)>,
    delay_ticks: u64,
)
    requires
        scans.len() > 0,
        scans[0].0 == (Bit { edge: Edge::Rising, pressed: true }),
        elapsed(state, scans[0].1) > delay_ticks,
        forall|k: int|
            0 < k < scans.len() ==> scans[0].1 <= (#[trigger] scans[k]).1 && (scans[k].1
                - scans[0].1 <= delay_ticks || scans[k].0 == (Bit {
                edge: Edge::NoEdge,
                pressed: true,
            })),
    ensures
        debounced_run(state, scans, delay_ticks).0 == (State {
            pressed_ticks: scans[0].1,
            pressed: true,
        }),
        debounced_run(state, scans, delay_ticks).1.len() == scans.len(),
        debounced_run(state, scans, delay_ticks).1[0] == scans[0],
        forall|k: int|
            0 < k < scans.len() ==> (#[trigger] debounced_run(state, scans, delay_ticks).1[k])
                == (Bit { edge: Edge::NoEdge, pressed: true }, scans[k].1),
    decreases scans.len(),
{
    let shorter = scans.drop_last();
    if scans.len() == 1 {
        assert(shorter.len() == 0);
        assert(debounced_run(state, shorter, delay_ticks).1.len() == 0);
    } else {
        assert(shorter[0] == scans[0]);
        assert forall|k: int| 0 < k < shorter.len() implies scans[0].1 <= (
        #[trigger] shorter[k]).1 && (shorter[k].1 - scans[0].1 <= delay_ticks || shorter[k].0 == (
        Bit { edge: Edge::NoEdge, pressed: true })) by {
            assert(shorter[k] == scans[k]);
        }
        lemma_bounce_leaves_one_rising(state, shorter, delay_ticks);
        let given = debounced_run(state, shorter, delay_ticks).1;
        let last = scans.len() - 1;
        assert(scans[last].1 >= scans[0].1);
        assert forall|k: int| 0 < k < scans.len() implies (#[trigger] debounced_run(
            state,
            scans,
            delay_ticks,
        ).1[k]) == (Bit { edge: Edge::NoEdge, pressed: true }, scans[k].1) by {
            if k < last {
                assert(given[k] == (Bit { edge: Edge::NoEdge, pressed: true }, shorter[k].1));
                assert(shorter[k] == scans[k]);
            }
        }
    }
}

} // verus!
