//! Typed values that a style attribute can carry.

use vstd::prelude::*;

use crate::keys::ValueKind;

verus! {

/// A straight-alpha RGBA color, one byte per channel.
#[derive(Clone, Copy, Debug, PartialEq, Eq, Structural)]
pub struct Rgba {
    pub r: u8,
    pub g: u8,
    pub b: u8,
    pub a: u8,
}

impl Rgba {
    pub fn new(r: u8, g: u8, b: u8, a: u8) -> (c: Rgba)
        ensures
            c == (Rgba { r, g, b, a }),
    {
        Rgba { r, g, b, a }
    }

    /// The same color channels with the alpha forced to fully opaque.
    pub fn opaque(r: u8, g: u8, b: u8) -> (c: Rgba)
        ensures
            c == (Rgba { r, g, b, a: 255 }),
    {
        Rgba { r, g, b, a: 255 }
    }
}

/// A fully specified override value.
///
/// `Width` carries a non-integral size in thousandths, so that `1500`
/// stands for a width of one and a half points.
#[derive(Clone, Copy, Debug, PartialEq, Eq, Structural)]
pub enum AttrValue {
    Color(Rgba),
    Width(i32),
    Radius(u8),
    Flag(bool),
}

/// Largest width magnitude a value may carry, in thousandths.
pub const WIDTH_LIMIT: i32 = 999_999_999;

/// A value that fits its representation: widths are bounded so that every
/// storable width has a decimal rendering of at most six whole digits.
pub open spec fn value_wf(v: AttrValue) -> bool {
    match v {
        AttrValue::Width(w) => -WIDTH_LIMIT <= w <= WIDTH_LIMIT,
        _ => true,
    }
}

/// The kind of an override value.
pub open spec fn value_kind(v: AttrValue) -> ValueKind {
    match v {
        AttrValue::Color(_) => ValueKind::Color,
        AttrValue::Width(_) => ValueKind::Width,
        AttrValue::Radius(_) => ValueKind::Radius,
        AttrValue::Flag(_) => ValueKind::Flag,
    }
}

impl AttrValue {
    /// The kind of this value.
    pub fn kind(&self) -> (k: ValueKind)
        ensures
            k == value_kind(*self),
    {
        match self {
            AttrValue::Color(_) => ValueKind::Color,
            AttrValue::Width(_) => ValueKind::Width,
            AttrValue::Radius(_) => ValueKind::Radius,
            AttrValue::Flag(_) => ValueKind::Flag,
        }
    }
}

} // verus!
