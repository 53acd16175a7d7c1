use vstd::prelude::*;

verus! {

/// A color with 8-bit red, green and blue channels; each channel stands for
/// its value divided by 255.
#[derive(Clone, Copy, Debug, PartialEq, Eq, Structural)]
pub struct Rgb {
    pub r: u8,
    pub g: u8,
    pub b: u8,
}

} // verus!
