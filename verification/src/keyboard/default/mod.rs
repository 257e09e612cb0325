pub mod layout;

use vstd::prelude::*;

verus! {

/// The name of the keyboard.
pub const NAME: &'static str = "default";

pub const LAYER_COUNT: usize = 2;

pub const KEY_MATRIX_ROW_COUNT: usize = 2;

pub const KEY_MATRIX_COL_COUNT: usize = 2;

pub const RGB_MATRIX_LED_COUNT: usize = 4;

} // verus!
