use vstd::prelude::*;

use crate::key::{Action, Edge, Key, LayerIndex};
use crate::matrix::Bit;
use crate::processor::bitmap::debounce::{debounced, elapsed, KeyRisingFallingDebounceProcessor};
use crate::processor::mapper::{
    cell_events, lemma_single_cell_events, rotary_events, Input, InputMap, Mapper,
};
use crate::processor::{keys_report, reported_keys, BitmapProcessor, Event};
use crate::rgb::{Color, RGBProcessor};

verus! {

/// How often the inputs are scanned, in scans a second.
pub const INPUT_SCANNER_TARGET_POLL_FREQ: u64 = 1000;

/// How often a report goes to the host, in reports a second.
pub const HID_REPORTER_TARGET_POLL_FREQ: u64 = 1000;

/// The time from the start of a scan to the start of the next.
pub const INPUT_SCANNER_TARGET_POLL_PERIOD_MICROS: u64 = 1_000;

/// The time from the start of a report to the start of the next.
pub const HID_REPORTER_TARGET_POLL_PERIOD_MICROS: u64 = 1_000;

/// The time at which the next round of a task starts: one period after the
/// start of this round, however long this round took. The time stops at
/// the last tick that the clock can show.
pub fn next_poll_ticks(start_ticks: u64, period_micros: u64) -> (next_ticks: u64)
    ensures
        next_ticks == (if start_ticks + period_micros > u64::MAX {
            u64::MAX
        } else {
            (start_ticks + period_micros) as u64
        }),
{
    start_ticks.saturating_add(period_micros)
}

/// What one input became on its way to the host and to the strip.
pub struct Output<L: LayerIndex> {
    /// The events of the input.
    pub events: Vec<Event<L>>,
    /// The keys to report to the host.
    pub keys: Vec<Key>,
    /// The frame to send to the renderer, if one is due.
    pub frame: Option<Vec<Color>>,
    /// Whether anything is going on: there is an event.
    pub active: bool,
}

/// The work of the master on every input, stage by stage: the switches are
/// debounced, the input is mapped to events, the commands among the events
/// steer the animation, and the keys among them make the report.
pub struct MasterProcessor<
    const LAYER_COUNT: usize,
    const KEY_MATRIX_ROW_COUNT: usize,
    const KEY_MATRIX_COL_COUNT: usize,
    const LED_COUNT: usize,
    L: LayerIndex,
> {
    debounce: KeyRisingFallingDebounceProcessor<KEY_MATRIX_ROW_COUNT, KEY_MATRIX_COL_COUNT>,
    mapper: Mapper<LAYER_COUNT, KEY_MATRIX_ROW_COUNT, KEY_MATRIX_COL_COUNT, L>,
    rgb: RGBProcessor<LED_COUNT>,
}

impl<
    const LAYER_COUNT: usize,
    const KEY_MATRIX_ROW_COUNT: usize,
    const KEY_MATRIX_COL_COUNT: usize,
    const LED_COUNT: usize,
    L: LayerIndex,
> MasterProcessor<LAYER_COUNT, KEY_MATRIX_ROW_COUNT, KEY_MATRIX_COL_COUNT, LED_COUNT, L> {
    pub closed spec fn debounce(self) -> KeyRisingFallingDebounceProcessor<
        KEY_MATRIX_ROW_COUNT,
        KEY_MATRIX_COL_COUNT,
    > {
        self.debounce
    }

    pub closed spec fn mapper(self) -> Mapper<
        LAYER_COUNT,
        KEY_MATRIX_ROW_COUNT,
        KEY_MATRIX_COL_COUNT,
        L,
    > {
        self.mapper
    }

    pub closed spec fn rgb(self) -> RGBProcessor<LED_COUNT> {
        self.rgb
    }

    pub fn new(
        debounce: KeyRisingFallingDebounceProcessor<KEY_MATRIX_ROW_COUNT, KEY_MATRIX_COL_COUNT>,
        mapping: InputMap<LAYER_COUNT, KEY_MATRIX_ROW_COUNT, KEY_MATRIX_COL_COUNT, L>,
        rgb: RGBProcessor<LED_COUNT>,
    ) -> (processor: Self)
        ensures
            processor.debounce() == debounce,
            processor.mapper().mapping() == mapping,
            processor.mapper().previous().scan_time_ticks == 0,
            processor.mapper().previous().all_released(),
            processor.rgb() == rgb,
    {
        MasterProcessor { debounce, mapper: Mapper::new(mapping), rgb }
    }

    /// Takes an input through all stages at `now_ticks`. The snapshot of
    /// the key matrix is debounced in place.
    pub fn process(
        &mut self,
        input: &mut Input<KEY_MATRIX_ROW_COUNT, KEY_MATRIX_COL_COUNT>,
        now_ticks: u64,
    ) -> (output: Output<L>)
        ensures
            final(input).rotary_encoder_result == old(input).rotary_encoder_result,
            final(input).key_matrix_result.scan_time_ticks == old(
                input,
            ).key_matrix_result.scan_time_ticks,
            old(self).debounce().processes(
                old(input).key_matrix_result,
                final(self).debounce(),
                final(input).key_matrix_result,
            ),
            final(self).debounce().delay_ticks() == old(self).debounce().delay_ticks(),
            forall|i: int, j: int|
                #![trigger final(self).debounce().state(i, j)]
                #![trigger final(input).key_matrix_result.matrix[i][j]]
                0 <= i < KEY_MATRIX_ROW_COUNT && 0 <= j < KEY_MATRIX_COL_COUNT ==> (
                    final(self).debounce().state(i, j),
                    final(input).key_matrix_result.matrix[i][j],
                ) == debounced(
                    old(self).debounce().state(i, j),
                    old(input).key_matrix_result.matrix[i][j],
                    old(input).key_matrix_result.scan_time_ticks,
                    old(self).debounce().delay_ticks(),
                ),
            final(self).mapper().mapping() == old(self).mapper().mapping(),
            final(self).mapper().previous() == final(input).key_matrix_result,
            output.events@ == old(self).mapper().mapping().events_of(*final(input)),
            final(self).rgb()@ == old(self).rgb()@.processed(output.events@, now_ticks),
            match output.frame {
                Some(colors) => old(self).rgb()@.frame_of(
                    output.events@,
                    now_ticks,
                    LED_COUNT as nat,
                ) == Some(colors@),
                None => old(self).rgb()@.frame_of(output.events@, now_ticks, LED_COUNT as nat)
                    is None,
            },
            output.keys@ == reported_keys(output.events@, output.events@.len() as int),
            output.active == (output.events@.len() > 0),
    {
        let _ = self.debounce.process(&mut input.key_matrix_result);
        let mut events: Vec<Event<L>> = Vec::new();
        self.mapper.map(input, &mut events);
        let frame = self.rgb.process(&events, now_ticks);
        let keys = keys_report(&events);
        let active = events.len() > 0;
        Output { events, keys, frame, active }
    }
}

/// The report of a cell that stands for a key: the key while the cell is
/// pressed or has just been pressed, nothing once it is released.
pub proof fn lemma_key_cell_report<L: LayerIndex>(
    time_ticks: u64,
    i: usize,
    j: usize,
    bit: Bit,
    key: Key,
)
    ensures
        ({
            let events = cell_events(time_ticks, i, j, bit, Action::<L>::Key(key));
            reported_keys(events, events.len() as int) == (if bit == Bit::released() || bit.edge
                == Edge::Falling {
                Seq::<Key>::empty()
            } else {
                seq![key]
            })
        }),
{
    let events = cell_events(time_ticks, i, j, bit, Action::<L>::Key(key));
    if bit == Bit::released() {
        assert(events.len() == 0);
    } else {
        assert(events.len() == 1);
        assert(reported_keys(events, 0) =~= Seq::<Key>::empty());
        if bit.edge != Edge::Falling {
            assert(reported_keys(events, 1) =~= seq![key]);
        }
    }
}

/// A tap on a key of the base layer. The first cell stands for a key on
/// the base layer, every other cell is released and without an edge, the
/// encoder is idle, and every cell is past its debounce window. Then the
/// report holds the key where the first cell is pressed, and is empty where
/// it is released: nothing before the tap, the key at the press, nothing at
/// the release.
pub proof fn lemma_tap_report<
    const LAYER_COUNT: usize,
    const ROW_COUNT: usize,
    const COL_COUNT: usize,
    L: LayerIndex,
>(
    debounce: KeyRisingFallingDebounceProcessor<ROW_COUNT, COL_COUNT>,
    debounce_after: KeyRisingFallingDebounceProcessor<ROW_COUNT, COL_COUNT>,
    mapping: InputMap<LAYER_COUNT, ROW_COUNT, COL_COUNT, L>,
    raw: Input<ROW_COUNT, COL_COUNT>,
    made: Input<ROW_COUNT, COL_COUNT>,
    key: Key,
)
    requires
        LAYER_COUNT > 0,
        ROW_COUNT > 0,
        COL_COUNT > 0,
        mapping.key_matrix[0][0][0] == Action::<L>::Key(key),
        debounce.processes(raw.key_matrix_result, debounce_after, made.key_matrix_result),
        made.rotary_encoder_result == raw.rotary_encoder_result,
        raw.rotary_encoder_result.is_idle(),
        forall|row: int, column: int|
            0 <= row < ROW_COUNT && 0 <= column < COL_COUNT ==> elapsed(
                #[trigger] debounce.state(row, column),
                raw.key_matrix_result.scan_time_ticks,
            ) > debounce.delay_ticks(),
        forall|row: int, column: int|
            0 <= row < ROW_COUNT && 0 <= column < COL_COUNT && !(row == 0 && column == 0)
                ==> raw.key_matrix_result.matrix[row][column] == Bit::released(),
    ensures
        ({
            let events = mapping.events_of(made);
            let cell = raw.key_matrix_result.matrix[0][0];
            reported_keys(events, events.len() as int) == (if cell == Bit::released() || cell.edge
                == Edge::Falling {
                Seq::<Key>::empty()
            } else {
                seq![key]
            })
        }),
{
    let result = made.key_matrix_result;
    assert forall|row: int, column: int|
        0 <= row < ROW_COUNT && 0 <= column < COL_COUNT implies result.matrix[row][column]
        == raw.key_matrix_result.matrix[row][column] by {
        assert(elapsed(debounce.state(row, column), raw.key_matrix_result.scan_time_ticks)
            > debounce.delay_ticks());
        assert((debounce_after.state(row, column), result.matrix[row][column]) == debounced(
            debounce.state(row, column),
            raw.key_matrix_result.matrix[row][column],
            raw.key_matrix_result.scan_time_ticks,
            debounce.delay_ticks(),
        ));
    }
    lemma_single_cell_events(mapping.key_matrix, result);
    lemma_key_cell_report::<L>(result.scan_time_ticks, 0, 0, result.matrix[0][0], key);
    assert(rotary_events(
        mapping.rotary_encoder[0],
        made.rotary_encoder_result,
    ) =~= Seq::<Event<L>>::empty());
    assert(mapping.events_of(made) =~= cell_events(
        result.scan_time_ticks,
        0,
        0,
        result.matrix[0][0],
        Action::<L>::Key(key),
    ));
}

} // verus!
