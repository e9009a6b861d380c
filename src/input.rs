//! A source of key presses.
use vstd::prelude::*;

verus! {

/// Something that can be asked for the key being pressed.
pub trait Input {
    /// Whether the logical key `key` is being pressed.
    fn is_key_pressed(&self, key: u8) -> bool;

    /// The logical key being pressed.
    fn get_key_pressed(&self) -> u8;
}

} // verus!
