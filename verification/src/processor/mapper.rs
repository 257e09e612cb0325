use vstd::prelude::*;

use crate::key::{Action, Edge, LayerIndex, ModifiedKey};
use crate::matrix::{Bit, Result as MatrixResult};
use crate::processor::Event;
use crate::rotary::{Direction, Result as RotaryResult};

verus! {

/// What one poll of the input devices found.
#[derive(Clone, Copy, Debug, PartialEq, Eq)]
pub struct Input<const KEY_MATRIX_ROW_COUNT: usize, const KEY_MATRIX_COL_COUNT: usize> {
    pub key_matrix_result: MatrixResult<KEY_MATRIX_ROW_COUNT, KEY_MATRIX_COL_COUNT>,
    pub rotary_encoder_result: RotaryResult,
}

/// What the encoder stands for on one layer.
#[derive(Clone, Copy, Debug, PartialEq, Eq)]
pub struct RotaryMap<L: LayerIndex> {
    pub clockwise: Action<L>,
    pub counter_clockwise: Action<L>,
    pub no_direction: Action<L>,
}

impl<L: LayerIndex> RotaryMap<L> {
    pub open spec fn get_spec(self, direction: Direction) -> Action<L> {
        match direction {
            Direction::Clockwise => self.clockwise,
            Direction::CounterClockwise => self.counter_clockwise,
            Direction::NoDirection => self.no_direction,
        }
    }

    pub fn get(&self, direction: Direction) -> (action: Action<L>)
        ensures
            action == self.get_spec(direction),
    {
        match direction {
            Direction::Clockwise => self.clockwise,
            Direction::CounterClockwise => self.counter_clockwise,
            Direction::NoDirection => self.no_direction,
        }
    }
}

/// The layer that the pressed cell at row `i`, column `j` lifts the mapping
/// to from `layer`: the layer of its modifier, where that lies above
/// `layer` and the map has it.
pub open spec fn lift_at<
    const LAYER_COUNT: usize,
    const ROW_COUNT: usize,
    const COL_COUNT: usize,
    L: LayerIndex,
>(
    key_matrix: [[[Action<L>; COL_COUNT]; ROW_COUNT]; LAYER_COUNT],
    bits: [[Bit; COL_COUNT]; ROW_COUNT],
    layer: int,
    i: int,
    j: int,
) -> Option<int> {
    if bits[i][j].pressed {
        match key_matrix[layer][i][j] {
            Action::LayerModifier(target) => if layer < target.index_spec() < LAYER_COUNT {
                Some(target.index_spec() as int)
            } else {
                None
            },
            _ => None,
        }
    } else {
        None
    }
}

/// The first lift in row `i` from column `j` on.
pub open spec fn row_lift<
    const LAYER_COUNT: usize,
    const ROW_COUNT: usize,
    const COL_COUNT: usize,
    L: LayerIndex,
>(
    key_matrix: [[[Action<L>; COL_COUNT]; ROW_COUNT]; LAYER_COUNT],
    bits: [[Bit; COL_COUNT]; ROW_COUNT],
    layer: int,
    i: int,
    j: int,
) -> Option<int>
    decreases COL_COUNT - j,
{
    if j >= COL_COUNT {
        None
    } else {
        match lift_at(key_matrix, bits, layer, i, j) {
            Some(target) => Some(target),
            None => row_lift(key_matrix, bits, layer, i, j + 1),
        }
    }
}

/// The first lift in row-major order from row `i` on.
pub open spec fn matrix_lift<
    const LAYER_COUNT: usize,
    const ROW_COUNT: usize,
    const COL_COUNT: usize,
    L: LayerIndex,
>(
    key_matrix: [[[Action<L>; COL_COUNT]; ROW_COUNT]; LAYER_COUNT],
    bits: [[Bit; COL_COUNT]; ROW_COUNT],
    layer: int,
    i: int,
) -> Option<int>
    decreases ROW_COUNT - i,
{
    if i >= ROW_COUNT {
        None
    } else {
        match row_lift(key_matrix, bits, layer, i, 0) {
            Some(target) => Some(target),
            None => matrix_lift(key_matrix, bits, layer, i + 1),
        }
    }
}

/// The layer that the mapping settles on when it starts at `layer`: it
/// follows the first lift of each layer it comes to, until a layer has
/// none.
pub open spec fn resolved_layer<
    const LAYER_COUNT: usize,
    const ROW_COUNT: usize,
    const COL_COUNT: usize,
    L: LayerIndex,
>(
    key_matrix: [[[Action<L>; COL_COUNT]; ROW_COUNT]; LAYER_COUNT],
    bits: [[Bit; COL_COUNT]; ROW_COUNT],
    layer: int,
) -> int
    decreases LAYER_COUNT - layer,
{
    match matrix_lift(key_matrix, bits, layer, 0) {
        Some(target) => if layer < target < LAYER_COUNT {
            resolved_layer(key_matrix, bits, target)
        } else {
            layer
        },
        None => layer,
    }
}

/// The events of the modifiers of a modified key with a bit below `bit`,
/// in the order of their bits.
pub open spec fn modifier_events<L: LayerIndex>(
    time_ticks: u64,
    i: usize,
    j: usize,
    edge: Edge,
    modified: ModifiedKey,
    bit: int,
) -> Seq<Event<L>>
    decreases bit,
{
    if bit <= 0 {
        Seq::empty()
    } else {
        let before = modifier_events(time_ticks, i, j, edge, modified, bit - 1);
        match modified.modifier_at(bit - 1).key_spec() {
            Some(key) => before.push(Event { time_ticks, i, j, edge, action: Action::Key(key) }),
            None => before,
        }
    }
}

/// The events of one cell. A released cell without an edge has none. A
/// modified key has one for each of its modifiers and then one for its key,
/// all with the edge and the time of the cell. Any other action has one.
pub open spec fn cell_events<L: LayerIndex>(
    time_ticks: u64,
    i: usize,
    j: usize,
    bit: Bit,
    action: Action<L>,
) -> Seq<Event<L>> {
    if bit.edge == Edge::NoEdge && !bit.pressed {
        Seq::empty()
    } else {
        match action {
            Action::ModifiedKey(modified) => modifier_events(
                time_ticks,
                i,
                j,
                bit.edge,
                modified,
                8,
            ).push(
                Event {
                    time_ticks,
                    i,
                    j,
                    edge: bit.edge,
                    action: Action::Key(modified.key_spec()),
                },
            ),
            _ => seq![Event { time_ticks, i, j, edge: bit.edge, action }],
        }
    }
}

/// The events of the cells of row `i` before column `j`.
pub open spec fn row_events<const ROW_COUNT: usize, const COL_COUNT: usize, L: LayerIndex>(
    actions: [[Action<L>; COL_COUNT]; ROW_COUNT],
    result: MatrixResult<ROW_COUNT, COL_COUNT>,
    i: int,
    j: int,
) -> Seq<Event<L>>
    decreases j,
{
    if j <= 0 {
        Seq::empty()
    } else {
        row_events(actions, result, i, j - 1) + cell_events(
            result.scan_time_ticks,
            i as usize,
            (j - 1) as usize,
            result.matrix[i][j - 1],
            actions[i][j - 1],
        )
    }
}

/// The events of the rows before row `i`, in row-major order.
pub open spec fn matrix_events<const ROW_COUNT: usize, const COL_COUNT: usize, L: LayerIndex>(
    actions: [[Action<L>; COL_COUNT]; ROW_COUNT],
    result: MatrixResult<ROW_COUNT, COL_COUNT>,
    i: int,
) -> Seq<Event<L>>
    decreases i,
{
    if i <= 0 {
        Seq::empty()
    } else {
        matrix_events(actions, result, i - 1) + row_events(
            actions,
            result,
            i - 1,
            COL_COUNT as int,
        )
    }
}

/// The events of a snapshot of the key matrix: those of all its cells on
/// the layer that the mapping settles on from the base layer. A map
/// without layers has no events.
pub open spec fn key_events<
    const LAYER_COUNT: usize,
    const ROW_COUNT: usize,
    const COL_COUNT: usize,
    L: LayerIndex,
>(
    key_matrix: [[[Action<L>; COL_COUNT]; ROW_COUNT]; LAYER_COUNT],
    result: MatrixResult<ROW_COUNT, COL_COUNT>,
) -> Seq<Event<L>> {
    if LAYER_COUNT == 0 {
        Seq::empty()
    } else {
        matrix_events(
            key_matrix[resolved_layer(key_matrix, result.matrix, 0)],
            result,
            ROW_COUNT as int,
        )
    }
}

/// The event of the encoder: none where it is idle, else one with the
/// action of its direction.
pub open spec fn rotary_events<L: LayerIndex>(
    actions: RotaryMap<L>,
    result: RotaryResult,
) -> Seq<Event<L>> {
    if result.is_idle() {
        Seq::empty()
    } else {
        seq![
            Event {
                time_ticks: result.scan_time_ticks,
                i: 0,
                j: 0,
                edge: result.edge,
                action: actions.get_spec(result.direction),
            },
        ]
    }
}

/// Finds the first lift of a layer.
pub fn find_lift<
    const LAYER_COUNT: usize,
    const ROW_COUNT: usize,
    const COL_COUNT: usize,
    L: LayerIndex,
>(
    key_matrix: &[[[Action<L>; COL_COUNT]; ROW_COUNT]; LAYER_COUNT],
    bits: &[[Bit; COL_COUNT]; ROW_COUNT],
    layer: usize,
) -> (lift: Option<usize>)
    requires
        layer < LAYER_COUNT,
    ensures
        match lift {
            Some(target) => matrix_lift(*key_matrix, *bits, layer as int, 0) == Some(
                target as int,
            ) && layer < target < LAYER_COUNT,
            None => matrix_lift(*key_matrix, *bits, layer as int, 0) is None,
        },
{
    let mut i: usize = 0;
    while i < ROW_COUNT
        invariant
            i <= ROW_COUNT,
            layer < LAYER_COUNT,
            matrix_lift(*key_matrix, *bits, layer as int, 0) == matrix_lift(
                *key_matrix,
                *bits,
                layer as int,
                i as int,
            ),
        decreases ROW_COUNT - i,
    {
        let mut j: usize = 0;
        while j < COL_COUNT
            invariant
                i < ROW_COUNT,
                j <= COL_COUNT,
                layer < LAYER_COUNT,
                matrix_lift(*key_matrix, *bits, layer as int, 0) == matrix_lift(
                    *key_matrix,
                    *bits,
                    layer as int,
                    i as int,
                ),
                row_lift(*key_matrix, *bits, layer as int, i as int, 0) == row_lift(
                    *key_matrix,
                    *bits,
                    layer as int,
                    i as int,
                    j as int,
                ),
            decreases COL_COUNT - j,
        {
            if bits[i][j].pressed {
                match key_matrix[layer][i][j] {
                    Action::LayerModifier(target) => {
                        let index = target.index();
                        if layer < index && index < LAYER_COUNT {
                            return Some(index);
                        }
                    },
                    _ => {},
                }
            }
            j += 1;
        }
        i += 1;
    }
    None
}

/// Finds the layer that the mapping settles on from the base layer.
pub fn resolve_layer<
    const LAYER_COUNT: usize,
    const ROW_COUNT: usize,
    const COL_COUNT: usize,
    L: LayerIndex,
>(
    key_matrix: &[[[Action<L>; COL_COUNT]; ROW_COUNT]; LAYER_COUNT],
    bits: &[[Bit; COL_COUNT]; ROW_COUNT],
) -> (layer: usize)
    requires
        LAYER_COUNT > 0,
    ensures
        layer == resolved_layer(*key_matrix, *bits, 0),
        layer < LAYER_COUNT,
{
    let mut layer: usize = 0;
    loop
        invariant
            layer < LAYER_COUNT,
            resolved_layer(*key_matrix, *bits, 0) == resolved_layer(
                *key_matrix,
                *bits,
                layer as int,
            ),
        ensures
            layer < LAYER_COUNT,
            layer == resolved_layer(*key_matrix, *bits, 0),
        decreases LAYER_COUNT - layer,
    {
        match find_lift(key_matrix, bits, layer) {
            Some(target) => {
                layer = target;
            },
            None => {
                break ;
            },
        }
    }
    layer
}

fn push_cell_events<L: LayerIndex>(
    events: &mut Vec<Event<L>>,
    time_ticks: u64,
    i: usize,
    j: usize,
    bit: Bit,
    action: Action<L>,
)
    ensures
        final(events)@ == old(events)@ + cell_events(time_ticks, i, j, bit, action),
{
    let idle = match bit.edge {
        Edge::NoEdge => !bit.pressed,
        _ => false,
    };
    if idle {
        assert(old(events)@ + Seq::<Event<L>>::empty() == old(events)@);
        return ;
    }
    match action {
        Action::ModifiedKey(modified) => {
            let modifiers = modified.get_modifiers();
            let mut bit_index: usize = 0;
            while bit_index < 8
                invariant
                    bit_index <= 8,
                    forall|b: int|
                        0 <= b < 8 ==> #[trigger] modifiers[b] == modified.modifier_at(b),
                    events@ == old(events)@ + modifier_events(
                        time_ticks,
                        i,
                        j,
                        bit.edge,
                        modified,
                        bit_index as int,
                    ),
                decreases 8 - bit_index,
            {
                match modifiers[bit_index].key() {
                    Some(key) => {
                        events.push(
                            Event { time_ticks, i, j, edge: bit.edge, action: Action::Key(key) },
                        );
                    },
                    None => {},
                }
                bit_index += 1;
            }
            events.push(
                Event { time_ticks, i, j, edge: bit.edge, action: Action::Key(modified.get_key()) },
            );
        },
        _ => {
            events.push(Event { time_ticks, i, j, edge: bit.edge, action });
        },
    }
}

/// Gathers the events of all cells of a snapshot on one layer of the map.
pub fn push_matrix_events<const ROW_COUNT: usize, const COL_COUNT: usize, L: LayerIndex>(
    events: &mut Vec<Event<L>>,
    actions: &[[Action<L>; COL_COUNT]; ROW_COUNT],
    result: &MatrixResult<ROW_COUNT, COL_COUNT>,
)
    ensures
        final(events)@ == old(events)@ + matrix_events(*actions, *result, ROW_COUNT as int),
{
    let mut i: usize = 0;
    while i < ROW_COUNT
        invariant
            i <= ROW_COUNT,
            events@ == old(events)@ + matrix_events(*actions, *result, i as int),
        decreases ROW_COUNT - i,
    {
        let ghost before_row = events@;
        let mut j: usize = 0;
        while j < COL_COUNT
            invariant
                i < ROW_COUNT,
                j <= COL_COUNT,
                events@ == before_row + row_events(*actions, *result, i as int, j as int),
            decreases COL_COUNT - j,
        {
            push_cell_events(
                events,
                result.scan_time_ticks,
                i,
                j,
                result.matrix[i][j],
                actions[i][j],
            );
            j += 1;
        }
        i += 1;
    }
}

/// The map from inputs to actions: for every layer the actions of the
/// cells and those of the encoder.
#[derive(Clone, Copy, Debug)]
pub struct InputMap<
    const LAYER_COUNT: usize,
    const KEY_MATRIX_ROW_COUNT: usize,
    const KEY_MATRIX_COL_COUNT: usize,
    L: LayerIndex,
> {
    pub key_matrix: [[[Action<L>; KEY_MATRIX_COL_COUNT]; KEY_MATRIX_ROW_COUNT]; LAYER_COUNT],
    pub rotary_encoder: [RotaryMap<L>; LAYER_COUNT],
}

impl<
    const LAYER_COUNT: usize,
    const KEY_MATRIX_ROW_COUNT: usize,
    const KEY_MATRIX_COL_COUNT: usize,
    L: LayerIndex,
> InputMap<LAYER_COUNT, KEY_MATRIX_ROW_COUNT, KEY_MATRIX_COL_COUNT, L> {
    pub fn new(
        key_matrix: [[[Action<L>; KEY_MATRIX_COL_COUNT]; KEY_MATRIX_ROW_COUNT]; LAYER_COUNT],
        rotary_encoder: [RotaryMap<L>; LAYER_COUNT],
    ) -> (map: Self)
        ensures
            map.key_matrix == key_matrix,
            map.rotary_encoder == rotary_encoder,
    {
        InputMap { key_matrix, rotary_encoder }
    }

    /// The events of an input: those of the key matrix, then that of the
    /// encoder, which takes its action from the layer that the key matrix
    /// settled on.
    pub open spec fn events_of(
        self,
        input: Input<KEY_MATRIX_ROW_COUNT, KEY_MATRIX_COL_COUNT>,
    ) -> Seq<Event<L>> {
        if LAYER_COUNT == 0 {
            Seq::empty()
        } else {
            key_events(self.key_matrix, input.key_matrix_result) + rotary_events(
                self.rotary_encoder[resolved_layer(
                    self.key_matrix,
                    input.key_matrix_result.matrix,
                    0,
                )],
                input.rotary_encoder_result,
            )
        }
    }
}

/// Turns inputs into events by an [`InputMap`].
pub struct Mapper<
    const LAYER_COUNT: usize,
    const KEY_MATRIX_ROW_COUNT: usize,
    const KEY_MATRIX_COL_COUNT: usize,
    L: LayerIndex,
> {
    previous_key_matrix_result: MatrixResult<KEY_MATRIX_ROW_COUNT, KEY_MATRIX_COL_COUNT>,
    mapping: InputMap<LAYER_COUNT, KEY_MATRIX_ROW_COUNT, KEY_MATRIX_COL_COUNT, L>,
}

impl<
    const LAYER_COUNT: usize,
    const KEY_MATRIX_ROW_COUNT: usize,
    const KEY_MATRIX_COL_COUNT: usize,
    L: LayerIndex,
> Mapper<LAYER_COUNT, KEY_MATRIX_ROW_COUNT, KEY_MATRIX_COL_COUNT, L> {
    /// The map that the mapper works by.
    pub closed spec fn mapping(self) -> InputMap<
        LAYER_COUNT,
        KEY_MATRIX_ROW_COUNT,
        KEY_MATRIX_COL_COUNT,
        L,
    > {
        self.mapping
    }

    /// The snapshot of the key matrix that the mapper saw last.
    pub closed spec fn previous(self) -> MatrixResult<KEY_MATRIX_ROW_COUNT, KEY_MATRIX_COL_COUNT> {
        self.previous_key_matrix_result
    }

    pub fn new(
        mapping: InputMap<LAYER_COUNT, KEY_MATRIX_ROW_COUNT, KEY_MATRIX_COL_COUNT, L>,
    ) -> (mapper: Self)
        ensures
            mapper.mapping() == mapping,
            mapper.previous().scan_time_ticks == 0,
            mapper.previous().all_released(),
    {
        Mapper { previous_key_matrix_result: MatrixResult::default(), mapping }
    }

    /// Puts the events of an input in place of what `events` held.
    pub fn map(
        &mut self,
        input: &Input<KEY_MATRIX_ROW_COUNT, KEY_MATRIX_COL_COUNT>,
        events: &mut Vec<Event<L>>,
    )
        ensures
            final(events)@ == old(self).mapping().events_of(*input),
            final(self).mapping() == old(self).mapping(),
            final(self).previous() == input.key_matrix_result,
    {
        events.clear();
        if LAYER_COUNT > 0 {
            let layer = resolve_layer(&self.mapping.key_matrix, &input.key_matrix_result.matrix);
            push_matrix_events(events, &self.mapping.key_matrix[layer], &input.key_matrix_result);
            let rotary = input.rotary_encoder_result;
            let idle = match (rotary.edge, rotary.direction) {
                (Edge::NoEdge, Direction::NoDirection) => true,
                _ => false,
            };
            if !idle {
                events.push(
                    Event {
                        time_ticks: rotary.scan_time_ticks,
                        i: 0,
                        j: 0,
                        edge: rotary.edge,
                        action: self.mapping.rotary_encoder[layer].get(rotary.direction),
                    },
                );
            }
        }
        self.previous_key_matrix_result = input.key_matrix_result;
    }
}

/// A lift leads to a layer above the one it starts from, and one that the
/// map has.
pub proof fn lemma_row_lift_in_range<
    const LAYER_COUNT: usize,
    const ROW_COUNT: usize,
    const COL_COUNT: usize,
    L: LayerIndex,
>(
    key_matrix: [[[Action<L>; COL_COUNT]; ROW_COUNT]; LAYER_COUNT],
    bits: [[Bit; COL_COUNT]; ROW_COUNT],
    layer: int,
    i: int,
    j: int,
)
    requires
        0 <= j,
    ensures
        row_lift(key_matrix, bits, layer, i, j) matches Some(target) ==> layer < target
            < LAYER_COUNT,
        row_lift(key_matrix, bits, layer, i, j) is None ==> forall|column: int|
            j <= column < COL_COUNT ==> lift_at(key_matrix, bits, layer, i, column) is None,
    decreases COL_COUNT - j,
{
    if j < COL_COUNT {
        lemma_row_lift_in_range(key_matrix, bits, layer, i, j + 1);
    }
}

/// A lift leads to a layer above the one it starts from, and one that the
/// map has. Where there is no lift from a row on, no cell from that row on
/// lifts.
pub proof fn lemma_matrix_lift_in_range<
    const LAYER_COUNT: usize,
    const ROW_COUNT: usize,
    const COL_COUNT: usize,
    L: LayerIndex,
>(
    key_matrix: [[[Action<L>; COL_COUNT]; ROW_COUNT]; LAYER_COUNT],
    bits: [[Bit; COL_COUNT]; ROW_COUNT],
    layer: int,
    i: int,
)
    requires
        0 <= i,
    ensures
        matrix_lift(key_matrix, bits, layer, i) matches Some(target) ==> layer < target
            < LAYER_COUNT,
        matrix_lift(key_matrix, bits, layer, i) is None ==> forall|row: int, column: int|
            i <= row < ROW_COUNT && 0 <= column < COL_COUNT ==> lift_at(
                key_matrix,
                bits,
                layer,
                row,
                column,
            ) is None,
    decreases ROW_COUNT - i,
{
    if i < ROW_COUNT {
        lemma_row_lift_in_range(key_matrix, bits, layer, i, 0);
        lemma_matrix_lift_in_range(key_matrix, bits, layer, i + 1);
    }
}

/// The layer that the mapping settles on is at or above the layer it
/// started from, the map has it, and no pressed cell lifts the mapping from
/// it.
pub proof fn lemma_resolved_layer_settled<
    const LAYER_COUNT: usize,
    const ROW_COUNT: usize,
    const COL_COUNT: usize,
    L: LayerIndex,
>(
    key_matrix: [[[Action<L>; COL_COUNT]; ROW_COUNT]; LAYER_COUNT],
    bits: [[Bit; COL_COUNT]; ROW_COUNT],
    layer: int,
)
    requires
        0 <= layer < LAYER_COUNT,
    ensures
        layer <= resolved_layer(key_matrix, bits, layer) < LAYER_COUNT,
        matrix_lift(key_matrix, bits, resolved_layer(key_matrix, bits, layer), 0) is None,
        forall|row: int, column: int|
            0 <= row < ROW_COUNT && 0 <= column < COL_COUNT ==> lift_at(
                key_matrix,
                bits,
                resolved_layer(key_matrix, bits, layer),
                row,
                column,
            ) is None,
    decreases LAYER_COUNT - layer,
{
    lemma_matrix_lift_in_range(key_matrix, bits, layer, 0);
    match matrix_lift(key_matrix, bits, layer, 0) {
        Some(target) => {
            lemma_resolved_layer_settled(key_matrix, bits, target);
        },
        None => {},
    }
}

/// The greatest layer that a cell of row `i` before column `j` lifts the
/// mapping to from `layer`; `layer` itself where none does.
pub open spec fn row_greatest_lift<
    const LAYER_COUNT: usize,
    const ROW_COUNT: usize,
    const COL_COUNT: usize,
    L: LayerIndex,
>(
    key_matrix: [[[Action<L>; COL_COUNT]; ROW_COUNT]; LAYER_COUNT],
    bits: [[Bit; COL_COUNT]; ROW_COUNT],
    layer: int,
    i: int,
    j: int,
) -> int
    decreases j,
{
    if j <= 0 {
        layer
    } else {
        let before = row_greatest_lift(key_matrix, bits, layer, i, j - 1);
        match lift_at(key_matrix, bits, layer, i, j - 1) {
            Some(target) => if target > before {
                target
            } else {
                before
            },
            None => before,
        }
    }
}

/// The greatest layer that a cell of the rows before row `i` lifts the
/// mapping to from `layer`; `layer` itself where none does.
pub open spec fn greatest_lift<
    const LAYER_COUNT: usize,
    const ROW_COUNT: usize,
    const COL_COUNT: usize,
    L: LayerIndex,
>(
    key_matrix: [[[Action<L>; COL_COUNT]; ROW_COUNT]; LAYER_COUNT],
    bits: [[Bit; COL_COUNT]; ROW_COUNT],
    layer: int,
    i: int,
) -> int
    decreases i,
{
    if i <= 0 {
        layer
    } else {
        let before = greatest_lift(key_matrix, bits, layer, i - 1);
        let row = row_greatest_lift(key_matrix, bits, layer, i - 1, COL_COUNT as int);
        if row > before {
            row
        } else {
            before
        }
    }
}

/// The layer that the rule of the greatest layer selects from `layer`: the
/// greatest layer whose modifier is held on `layer`, and from there on by
/// the same rule.
pub open spec fn greatest_layer<
    const LAYER_COUNT: usize,
    const ROW_COUNT: usize,
    const COL_COUNT: usize,
    L: LayerIndex,
>(
    key_matrix: [[[Action<L>; COL_COUNT]; ROW_COUNT]; LAYER_COUNT],
    bits: [[Bit; COL_COUNT]; ROW_COUNT],
    layer: int,
) -> int
    decreases LAYER_COUNT - layer,
{
    let greatest = greatest_lift(key_matrix, bits, layer, ROW_COUNT as int);
    if layer < greatest < LAYER_COUNT {
        greatest_layer(key_matrix, bits, greatest)
    } else {
        layer
    }
}

/// On every layer that the mapping comes to from `layer`, the first held
/// modifier in row-major order is the one of the greatest layer.
pub open spec fn first_lift_is_greatest<
    const LAYER_COUNT: usize,
    const ROW_COUNT: usize,
    const COL_COUNT: usize,
    L: LayerIndex,
>(
    key_matrix: [[[Action<L>; COL_COUNT]; ROW_COUNT]; LAYER_COUNT],
    bits: [[Bit; COL_COUNT]; ROW_COUNT],
    layer: int,
) -> bool
    decreases LAYER_COUNT - layer,
{
    match matrix_lift(key_matrix, bits, layer, 0) {
        Some(target) => target == greatest_lift(key_matrix, bits, layer, ROW_COUNT as int) && (
        layer < target < LAYER_COUNT ==> first_lift_is_greatest(key_matrix, bits, target)),
        None => true,
    }
}

proof fn lemma_row_without_lift<
    const LAYER_COUNT: usize,
    const ROW_COUNT: usize,
    const COL_COUNT: usize,
    L: LayerIndex,
>(
    key_matrix: [[[Action<L>; COL_COUNT]; ROW_COUNT]; LAYER_COUNT],
    bits: [[Bit; COL_COUNT]; ROW_COUNT],
    layer: int,
    i: int,
    j: int,
)
    requires
        0 <= j <= COL_COUNT,
        forall|column: int|
            0 <= column < COL_COUNT ==> lift_at(key_matrix, bits, layer, i, column) is None,
    ensures
        row_greatest_lift(key_matrix, bits, layer, i, j) == layer,
    decreases j,
{
    if j > 0 {
        lemma_row_without_lift(key_matrix, bits, layer, i, j - 1);
    }
}

proof fn lemma_matrix_without_lift<
    const LAYER_COUNT: usize,
    const ROW_COUNT: usize,
    const COL_COUNT: usize,
    L: LayerIndex,
>(
    key_matrix: [[[Action<L>; COL_COUNT]; ROW_COUNT]; LAYER_COUNT],
    bits: [[Bit; COL_COUNT]; ROW_COUNT],
    layer: int,
    i: int,
)
    requires
        0 <= i <= ROW_COUNT,
        forall|row: int, column: int|
            0 <= row < ROW_COUNT && 0 <= column < COL_COUNT ==> lift_at(
                key_matrix,
                bits,
                layer,
                row,
                column,
            ) is None,
    ensures
        greatest_lift(key_matrix, bits, layer, i) == layer,
    decreases i,
{
    if i > 0 {
        lemma_matrix_without_lift(key_matrix, bits, layer, i - 1);
        lemma_row_without_lift(key_matrix, bits, layer, i - 1, COL_COUNT as int);
    }
}

/// The layer that the mapping settles on is the one that the rule of the
/// greatest layer selects, given that on every layer the mapping comes to
/// the first held modifier is the one of the greatest layer. Without that,
/// the mapping follows the first held modifier, and may settle below.
pub proof fn lemma_resolved_layer_is_greatest<
    const LAYER_COUNT: usize,
    const ROW_COUNT: usize,
    const COL_COUNT: usize,
    L: LayerIndex,
>(
    key_matrix: [[[Action<L>; COL_COUNT]; ROW_COUNT]; LAYER_COUNT],
    bits: [[Bit; COL_COUNT]; ROW_COUNT],
    layer: int,
)
    requires
        0 <= layer < LAYER_COUNT,
        first_lift_is_greatest(key_matrix, bits, layer),
    ensures
        resolved_layer(key_matrix, bits, layer) == greatest_layer(key_matrix, bits, layer),
    decreases LAYER_COUNT - layer,
{
    lemma_matrix_lift_in_range(key_matrix, bits, layer, 0);
    match matrix_lift(key_matrix, bits, layer, 0) {
        Some(target) => {
            lemma_resolved_layer_is_greatest(key_matrix, bits, target);
        },
        None => {
            lemma_matrix_without_lift(key_matrix, bits, layer, ROW_COUNT as int);
        },
    }
}

/// The layer that the mapping settles on depends on the map and on which
/// cells are pressed, and on nothing else.
pub proof fn lemma_resolved_layer_by_pressed<
    const LAYER_COUNT: usize,
    const ROW_COUNT: usize,
    const COL_COUNT: usize,
    L: LayerIndex,
>(
    key_matrix: [[[Action<L>; COL_COUNT]; ROW_COUNT]; LAYER_COUNT],
    first: [[Bit; COL_COUNT]; ROW_COUNT],
    second: [[Bit; COL_COUNT]; ROW_COUNT],
    layer: int,
)
    requires
        0 <= layer < LAYER_COUNT,
        forall|row: int, column: int|
            0 <= row < ROW_COUNT && 0 <= column < COL_COUNT ==> first[row][column].pressed
                == second[row][column].pressed,
    ensures
        resolved_layer(key_matrix, first, layer) == resolved_layer(key_matrix, second, layer),
    decreases LAYER_COUNT - layer,
{
    lemma_matrix_lift_by_pressed(key_matrix, first, second, layer, 0);
    lemma_matrix_lift_in_range(key_matrix, first, layer, 0);
    match matrix_lift(key_matrix, first, layer, 0) {
        Some(target) => {
            lemma_resolved_layer_by_pressed(key_matrix, first, second, target);
        },
        None => {},
    }
}

proof fn lemma_row_lift_by_pressed<
    const LAYER_COUNT: usize,
    const ROW_COUNT: usize,
    const COL_COUNT: usize,
    L: LayerIndex,
>(
    key_matrix: [[[Action<L>; COL_COUNT]; ROW_COUNT]; LAYER_COUNT],
    first: [[Bit; COL_COUNT]; ROW_COUNT],
    second: [[Bit; COL_COUNT]; ROW_COUNT],
    layer: int,
    i: int,
    j: int,
)
    requires
        0 <= i < ROW_COUNT,
        0 <= j,
        forall|row: int, column: int|
            0 <= row < ROW_COUNT && 0 <= column < COL_COUNT ==> first[row][column].pressed
                == second[row][column].pressed,
    ensures
        row_lift(key_matrix, first, layer, i, j) == row_lift(key_matrix, second, layer, i, j),
    decreases COL_COUNT - j,
{
    if j < COL_COUNT {
        assert(first[i][j].pressed == second[i][j].pressed);
        lemma_row_lift_by_pressed(key_matrix, first, second, layer, i, j + 1);
    }
}

proof fn lemma_matrix_lift_by_pressed<
    const LAYER_COUNT: usize,
    const ROW_COUNT: usize,
    const COL_COUNT: usize,
    L: LayerIndex,
>(
    key_matrix: [[[Action<L>; COL_COUNT]; ROW_COUNT]; LAYER_COUNT],
    first: [[Bit; COL_COUNT]; ROW_COUNT],
    second: [[Bit; COL_COUNT]; ROW_COUNT],
    layer: int,
    i: int,
)
    requires
        0 <= i,
        forall|row: int, column: int|
            0 <= row < ROW_COUNT && 0 <= column < COL_COUNT ==> first[row][column].pressed
                == second[row][column].pressed,
    ensures
        matrix_lift(key_matrix, first, layer, i) == matrix_lift(key_matrix, second, layer, i),
    decreases ROW_COUNT - i,
{
    if i < ROW_COUNT {
        lemma_row_lift_by_pressed(key_matrix, first, second, layer, i, 0);
        lemma_matrix_lift_by_pressed(key_matrix, first, second, layer, i + 1);
    }
}

/// Every event of the modifiers of a modified key has the time, the place
/// and the edge it was made with, and stands for the key of a modifier.
pub proof fn lemma_modifier_events<L: LayerIndex>(
    time_ticks: u64,
    i: usize,
    j: usize,
    edge: Edge,
    modified: ModifiedKey,
    bit: int,
)
    ensures
        forall|n: int|
            0 <= n < modifier_events::<L>(time_ticks, i, j, edge, modified, bit).len() ==> {
                let event = #[trigger] modifier_events::<L>(
                    time_ticks,
                    i,
                    j,
                    edge,
                    modified,
                    bit,
                )[n];
                &&& event.time_ticks == time_ticks
                &&& event.i == i
                &&& event.j == j
                &&& event.edge == edge
                &&& event.action is Key
            },
    decreases bit,
{
    if bit > 0 {
        lemma_modifier_events::<L>(time_ticks, i, j, edge, modified, bit - 1);
    }
}

/// Every event of a cell has the time, the place and the edge of the cell.
/// The events of a modified key all stand for keys, and the last of them
/// for the key itself: the modifiers come first.
pub proof fn lemma_cell_events<L: LayerIndex>(
    time_ticks: u64,
    i: usize,
    j: usize,
    bit: Bit,
    action: Action<L>,
)
    ensures
        forall|n: int|
            0 <= n < cell_events(time_ticks, i, j, bit, action).len() ==> {
                let event = #[trigger] cell_events(time_ticks, i, j, bit, action)[n];
                &&& event.time_ticks == time_ticks
                &&& event.i == i
                &&& event.j == j
                &&& event.edge == bit.edge
                &&& action is ModifiedKey ==> event.action is Key
            },
        action is ModifiedKey && !(bit.edge == Edge::NoEdge && !bit.pressed) ==> cell_events(
            time_ticks,
            i,
            j,
            bit,
            action,
        ).len() > 0 && cell_events(time_ticks, i, j, bit, action).last().action == Action::<
            L,
        >::Key(action->ModifiedKey_0.key_spec()),
{
    match action {
        Action::ModifiedKey(modified) => {
            lemma_modifier_events::<L>(time_ticks, i, j, bit.edge, modified, 8);
        },
        _ => {},
    }
}

/// Every event of a row has the time of the snapshot.
pub proof fn lemma_row_events_time<const ROW_COUNT: usize, const COL_COUNT: usize, L: LayerIndex>(
    actions: [[Action<L>; COL_COUNT]; ROW_COUNT],
    result: MatrixResult<ROW_COUNT, COL_COUNT>,
    i: int,
    j: int,
)
    ensures
        forall|n: int|
            0 <= n < row_events(actions, result, i, j).len() ==> (#[trigger] row_events(
                actions,
                result,
                i,
                j,
            )[n]).time_ticks == result.scan_time_ticks,
    decreases j,
{
    if j > 0 {
        lemma_row_events_time(actions, result, i, j - 1);
        lemma_cell_events(
            result.scan_time_ticks,
            i as usize,
            (j - 1) as usize,
            result.matrix[i][j - 1],
            actions[i][j - 1],
        );
    }
}

/// Every event of a snapshot has the time of the snapshot.
pub proof fn lemma_matrix_events_time<
    const ROW_COUNT: usize,
    const COL_COUNT: usize,
    L: LayerIndex,
>(actions: [[Action<L>; COL_COUNT]; ROW_COUNT], result: MatrixResult<ROW_COUNT, COL_COUNT>, i: int)
    ensures
        forall|n: int|
            0 <= n < matrix_events(actions, result, i).len() ==> (#[trigger] matrix_events(
                actions,
                result,
                i,
            )[n]).time_ticks == result.scan_time_ticks,
    decreases i,
{
    if i > 0 {
        lemma_matrix_events_time(actions, result, i - 1);
        lemma_row_events_time(actions, result, i - 1, COL_COUNT as int);
    }
}

proof fn lemma_row_lift_none<
    const LAYER_COUNT: usize,
    const ROW_COUNT: usize,
    const COL_COUNT: usize,
    L: LayerIndex,
>(
    key_matrix: [[[Action<L>; COL_COUNT]; ROW_COUNT]; LAYER_COUNT],
    bits: [[Bit; COL_COUNT]; ROW_COUNT],
    layer: int,
    i: int,
    j: int,
)
    requires
        0 <= j,
        forall|column: int|
            j <= column < COL_COUNT ==> lift_at(key_matrix, bits, layer, i, column) is None,
    ensures
        row_lift(key_matrix, bits, layer, i, j) is None,
    decreases COL_COUNT - j,
{
    if j < COL_COUNT {
        lemma_row_lift_none(key_matrix, bits, layer, i, j + 1);
    }
}

proof fn lemma_matrix_lift_none<
    const LAYER_COUNT: usize,
    const ROW_COUNT: usize,
    const COL_COUNT: usize,
    L: LayerIndex,
>(
    key_matrix: [[[Action<L>; COL_COUNT]; ROW_COUNT]; LAYER_COUNT],
    bits: [[Bit; COL_COUNT]; ROW_COUNT],
    layer: int,
    i: int,
)
    requires
        0 <= i,
        forall|row: int, column: int|
            i <= row < ROW_COUNT && 0 <= column < COL_COUNT ==> lift_at(
                key_matrix,
                bits,
                layer,
                row,
                column,
            ) is None,
    ensures
        matrix_lift(key_matrix, bits, layer, i) is None,
    decreases ROW_COUNT - i,
{
    if i < ROW_COUNT {
        lemma_row_lift_none(key_matrix, bits, layer, i, 0);
        lemma_matrix_lift_none(key_matrix, bits, layer, i + 1);
    }
}

/// Released cells without an edge at the end of a row add no events.
pub proof fn lemma_row_events_released<
    const ROW_COUNT: usize,
    const COL_COUNT: usize,
    L: LayerIndex,
>(
    actions: [[Action<L>; COL_COUNT]; ROW_COUNT],
    result: MatrixResult<ROW_COUNT, COL_COUNT>,
    i: int,
    from: int,
    j: int,
)
    requires
        0 <= i < ROW_COUNT,
        0 <= from <= j <= COL_COUNT,
        forall|column: int| from <= column < j ==> result.matrix[i][column] == Bit::released(),
    ensures
        row_events(actions, result, i, j) == row_events(actions, result, i, from),
    decreases j,
{
    if j > from {
        lemma_row_events_released(actions, result, i, from, j - 1);
        assert(result.matrix[i][j - 1] == Bit::released());
        assert(row_events(actions, result, i, j) =~= row_events(actions, result, i, j - 1));
    }
}

/// Rows of released cells without an edge at the end of a snapshot add no
/// events.
pub proof fn lemma_matrix_events_released<
    const ROW_COUNT: usize,
    const COL_COUNT: usize,
    L: LayerIndex,
>(
    actions: [[Action<L>; COL_COUNT]; ROW_COUNT],
    result: MatrixResult<ROW_COUNT, COL_COUNT>,
    from: int,
    i: int,
)
    requires
        0 <= from <= i <= ROW_COUNT,
        forall|row: int, column: int|
            from <= row < i && 0 <= column < COL_COUNT ==> result.matrix[row][column]
                == Bit::released(),
    ensures
        matrix_events(actions, result, i) == matrix_events(actions, result, from),
    decreases i,
{
    if i > from {
        lemma_matrix_events_released(actions, result, from, i - 1);
        lemma_row_events_released(actions, result, i - 1, 0, COL_COUNT as int);
        assert(row_events(actions, result, i - 1, 0) =~= Seq::<Event<L>>::empty());
        assert(matrix_events(actions, result, i) =~= matrix_events(actions, result, i - 1));
    }
}

/// Where every cell but the first is released and without an edge, and the
/// first cell is no layer modifier on the base layer, the mapping stays on
/// the base layer and the events are those of the first cell.
pub proof fn lemma_single_cell_events<
    const LAYER_COUNT: usize,
    const ROW_COUNT: usize,
    const COL_COUNT: usize,
    L: LayerIndex,
>(
    key_matrix: [[[Action<L>; COL_COUNT]; ROW_COUNT]; LAYER_COUNT],
    result: MatrixResult<ROW_COUNT, COL_COUNT>,
)
    requires
        LAYER_COUNT > 0,
        ROW_COUNT > 0,
        COL_COUNT > 0,
        !(key_matrix[0][0][0] is LayerModifier),
        forall|row: int, column: int|
            0 <= row < ROW_COUNT && 0 <= column < COL_COUNT && !(row == 0 && column == 0)
                ==> result.matrix[row][column] == Bit::released(),
    ensures
        resolved_layer(key_matrix, result.matrix, 0) == 0,
        key_events(key_matrix, result) == cell_events(
            result.scan_time_ticks,
            0,
            0,
            result.matrix[0][0],
            key_matrix[0][0][0],
        ),
{
    assert forall|row: int, column: int|
        0 <= row < ROW_COUNT && 0 <= column < COL_COUNT implies lift_at(
        key_matrix,
        result.matrix,
        0,
        row,
        column,
    ) is None by {
        if !(row == 0 && column == 0) {
            assert(result.matrix[row][column] == Bit::released());
        }
    }
    lemma_matrix_lift_none(key_matrix, result.matrix, 0, 0);
    let actions = key_matrix[0];
    lemma_matrix_events_released(actions, result, 1, ROW_COUNT as int);
    lemma_row_events_released(actions, result, 0, 1, COL_COUNT as int);
    assert(matrix_events(actions, result, 0) =~= Seq::<Event<L>>::empty());
    assert(row_events(actions, result, 0, 0) =~= Seq::<Event<L>>::empty());
    assert(row_events(actions, result, 0, 1) =~= cell_events(
        result.scan_time_ticks,
        0,
        0,
        result.matrix[0][0],
        actions[0][0],
    ));
    assert(matrix_events(actions, result, 1) =~= row_events(actions, result, 0, COL_COUNT as int));
}

} // verus!
