//! Colour space description: primaries, transfer function, Y'CbCr encoding
//! and quantisation range.

use vstd::prelude::*;

verus! {

/// Colour primaries.
#[derive(Debug, Clone, Copy, PartialEq, Eq, Structural)]
pub enum Primaries {
    Raw,
    Smpte170m,
    Rec709,
    Rec2020,
}

/// Transfer function.
#[derive(Debug, Clone, Copy, PartialEq, Eq, Structural)]
pub enum TransferFunction {
    Linear,
    Srgb,
    Rec709,
}

/// Y'CbCr encoding; `NoEncoding` is used for RGB colour spaces.
#[derive(Debug, Clone, Copy, PartialEq, Eq, Structural)]
pub enum YcbcrEncoding {
    NoEncoding,
    Rec601,
    Rec709,
    Rec2020,
}

/// Quantisation range.
#[derive(Debug, Clone, Copy, PartialEq, Eq, Structural)]
pub enum Range {
    Full,
    Limited,
}

/// A complete colour space description.
#[derive(Debug, Clone, Copy, PartialEq, Eq, Structural)]
pub struct ColorSpace {
    pub primaries: Primaries,
    pub transfer_function: TransferFunction,
    pub ycbcr_encoding: YcbcrEncoding,
    pub range: Range,
}

impl ColorSpace {
    pub fn new(
        primaries: Primaries,
        transfer_function: TransferFunction,
        ycbcr_encoding: YcbcrEncoding,
        range: Range,
    ) -> (r: Self)
        ensures
            r == (ColorSpace { primaries, transfer_function, ycbcr_encoding, range }),
    {
        Self { primaries, transfer_function, ycbcr_encoding, range }
    }
}

} // verus!
