//! Blending of a fragment with the color already in the framebuffer.

use vstd::prelude::*;

verus! {

/// How the weighted source and destination colors are combined.
#[derive(Clone, Copy, Debug, PartialEq, Eq, Structural)]
pub enum Equation {
    Additive,
    Subtract,
    ReverseSubtract,
    Min,
    Max,
}

/// Weight of a color in the blending equation.
#[derive(Clone, Copy, Debug, PartialEq, Eq, Structural)]
pub enum Factor {
    One,
    Zero,
    SrcColor,
    SrcColorComplement,
    DestColor,
    DestColorComplement,
    SrcAlpha,
    SrcAlphaComplement,
    DstAlpha,
    DstAlphaComplement,
    SrcAlphaSaturate,
}

} // verus!
