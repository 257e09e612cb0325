pub mod layout;

use vstd::prelude::*;

verus! {

/// The name of the keyboard.
pub const NAME: &'static str = "quadax-rift";

pub const LAYER_COUNT: usize = 5;

pub const KEY_MATRIX_ROW_COUNT: usize = 5;

pub const KEY_MATRIX_COL_COUNT: usize = 14;

pub const RGB_MATRIX_LED_COUNT: usize = 67;

} // verus!
