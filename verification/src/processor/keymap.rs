use vstd::prelude::*;

use crate::key::{Action, LayerIndex};
use crate::matrix::Result as Bitmap;
use crate::processor::mapper::{key_events, push_matrix_events, resolve_layer};
use crate::processor::Event;

verus! {

/// The actions of the cells, layer by layer.
#[derive(Clone, Copy, Debug)]
pub struct KeyMap<
    const ROW_COUNT: usize,
    const COL_COUNT: usize,
    const LAYER_COUNT: usize,
    L: LayerIndex,
>(pub [[[Action<L>; COL_COUNT]; ROW_COUNT]; LAYER_COUNT]);

impl<
    const ROW_COUNT: usize,
    const COL_COUNT: usize,
    const LAYER_COUNT: usize,
    L: LayerIndex,
> Default for KeyMap<ROW_COUNT, COL_COUNT, LAYER_COUNT, L> {
    /// The map in which every cell of every layer is transparent.
    fn default() -> (map: Self)
        ensures
            forall|layer: int, i: int, j: int|
                0 <= layer < LAYER_COUNT && 0 <= i < ROW_COUNT && 0 <= j < COL_COUNT
                    ==> #[trigger] map.0[layer][i][j] == Action::<L>::Pass,
    {
        KeyMap([[[Action::Pass; COL_COUNT]; ROW_COUNT]; LAYER_COUNT])
    }
}

/// Turns snapshots of the key matrix into events by a [`KeyMap`].
pub struct KeyMapper<
    const ROW_COUNT: usize,
    const COL_COUNT: usize,
    const LAYER_COUNT: usize,
    L: LayerIndex,
> {
    previous_bitmap: Bitmap<ROW_COUNT, COL_COUNT>,
    mapping: KeyMap<ROW_COUNT, COL_COUNT, LAYER_COUNT, L>,
}

impl<
    const ROW_COUNT: usize,
    const COL_COUNT: usize,
    const LAYER_COUNT: usize,
    L: LayerIndex,
> KeyMapper<ROW_COUNT, COL_COUNT, LAYER_COUNT, L> {
    /// The map that the mapper works by.
    pub closed spec fn mapping(self) -> KeyMap<ROW_COUNT, COL_COUNT, LAYER_COUNT, L> {
        self.mapping
    }

    /// The snapshot that the mapper saw last.
    pub closed spec fn previous(self) -> Bitmap<ROW_COUNT, COL_COUNT> {
        self.previous_bitmap
    }

    pub fn new(mapping: KeyMap<ROW_COUNT, COL_COUNT, LAYER_COUNT, L>) -> (mapper: Self)
        ensures
            mapper.mapping() == mapping,
            mapper.previous().scan_time_ticks == 0,
            mapper.previous().all_released(),
    {
        KeyMapper { previous_bitmap: Bitmap::default(), mapping }
    }

    /// Puts the events of a snapshot in place of what `events` held.
    pub fn map(&mut self, bitmap: &Bitmap<ROW_COUNT, COL_COUNT>, events: &mut Vec<Event<L>>)
        ensures
            final(events)@ == key_events(old(self).mapping().0, *bitmap),
            final(self).mapping() == old(self).mapping(),
            final(self).previous() == *bitmap,
    {
        events.clear();
        if LAYER_COUNT > 0 {
            let layer = resolve_layer(&self.mapping.0, &bitmap.matrix);
            push_matrix_events(events, &self.mapping.0[layer], bitmap);
        }
        self.previous_bitmap = *bitmap;
    }
}

} // verus!
