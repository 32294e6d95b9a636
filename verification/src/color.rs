//! Colours of the chrome, with eight bits per channel.
use vstd::prelude::*;

verus! {

/// A colour with an opacity; 255 is fully opaque.
#[derive(Debug, Clone, Copy, PartialEq, Eq, Structural)]
pub struct Color {
    pub r: u8,
    pub g: u8,
    pub b: u8,
    pub a: u8,
}

} // verus!
