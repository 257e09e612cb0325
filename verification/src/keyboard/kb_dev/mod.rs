pub mod layout;

use vstd::prelude::*;

verus! {

/// The name of the keyboard.
pub const NAME: &'static str = "kb-dev";

pub const LAYER_COUNT: usize = 3;

pub const KEY_MATRIX_ROW_COUNT: usize = 5;

pub const KEY_MATRIX_COL_COUNT: usize = 15;

pub const RGB_MATRIX_LED_COUNT: usize = 67;

} // verus!
