//! What a machine asks of the window that shows it and of the keypad that
//! drives it.

use crate::display::{colour_of, LIT};
use vstd::prelude::*;

verus! {

/// A window that can show a picture.
pub trait Display {
    /// Whether the window is still open.
    fn is_open(&self) -> bool;

    /// Shows `new_buffer`, a picture of `height` rows of `width` pixels, one
    /// byte per pixel, row after row.
    fn update_buffer(&mut self, new_buffer: &[u8], width: usize, height: usize);

    /// Lets the window handle what happened since the last call.
    fn update(&mut self);
}

/// A keypad of sixteen keys, `0` to `F`.
pub trait Input {
    /// Whether key `key` is held down.
    fn is_key_down(&self, key: u8) -> bool
        requires
            key < 16,
    ;

    /// A key that was released since the last poll, if any.
    fn get_key(&self) -> Option<u8>;
}

/// The colours that show `pixels`: 0 for a pixel that is off, `LIT` for one
/// that is on.
pub fn to_colours(pixels: &[u8]) -> (colours: Vec<u32>)
    ensures
        colours@.len() == pixels@.len(),
        forall|i: int| 0 <= i < pixels@.len() ==> colours@[i] == colour_of(#[trigger] pixels@[i]),
{
    let mut colours: Vec<u32> = Vec::new();
    let mut i: usize = 0;
    while i < pixels.len()
        invariant
            i <= pixels@.len(),
            colours@.len() == i,
            forall|k: int| 0 <= k < i ==> colours@[k] == colour_of(#[trigger] pixels@[k]),
        decreases pixels@.len() - i,
    {
        colours.push(pixels[i] as u32 * LIT);
        i += 1;
    }
    colours
}

} // verus!
