use vstd::prelude::*;

use crate::matrix::Result as Bitmap;
use crate::processor::{BitmapProcessor, Result};

verus! {

/// A processor that leaves every snapshot as it is.
pub struct NoneProcessor {}

impl NoneProcessor {
    pub fn new() -> Self {
        NoneProcessor {  }
    }
}

impl<const ROW_COUNT: usize, const COL_COUNT: usize> BitmapProcessor<
    ROW_COUNT,
    COL_COUNT,
> for NoneProcessor {
    fn process(&mut self, bitmap: &mut Bitmap<ROW_COUNT, COL_COUNT>) -> (result: Result)
        ensures
            result is Ok,
            *final(bitmap) == *old(bitmap),
    {
        Ok(())
    }
}

} // verus!
