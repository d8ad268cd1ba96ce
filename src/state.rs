//! The record of what one blur element draws, and its change comparison.
use vstd::prelude::*;
use crate::float_bits::{f32_bits_eq, f32_eq, f64_bits_eq, f64_eq};

verus! {

/// A logical-space position; each coordinate is the bit pattern of an `f64`.
#[derive(Clone, Copy, Debug)]
pub struct LogicalPoint {
    pub x: u64,
    pub y: u64,
}

/// A logical-space extent; each dimension is the bit pattern of an `f64`.
#[derive(Clone, Copy, Debug)]
pub struct LogicalSize {
    pub w: u64,
    pub h: u64,
}

/// Everything that decides what one blur element draws.
///
/// Floating-point fields hold bit patterns (`scale`: `f64`; `noise`,
/// `corner_radius`: `f32`). `output` names the output the element is bound
/// to, `context` the GPU context it was last bound with; neither is owned.
#[derive(Clone, Copy, Debug)]
pub struct ElementState {
    pub loc: LogicalPoint,
    pub size: LogicalSize,
    pub scale: u64,
    pub noise: u32,
    pub output: Option<u64>,
    pub context: Option<u64>,
    pub corner_radius: u32,
}

/// Field-wise equality of two states, with IEEE equality on the
/// floating-point fields.
pub open spec fn state_eq(a: ElementState, b: ElementState) -> bool {
    &&& f64_eq(a.loc.x, b.loc.x)
    &&& f64_eq(a.loc.y, b.loc.y)
    &&& f64_eq(a.size.w, b.size.w)
    &&& f64_eq(a.size.h, b.size.h)
    &&& f64_eq(a.scale, b.scale)
    &&& f32_eq(a.noise, b.noise)
    &&& a.output == b.output
    &&& a.context == b.context
    &&& f32_eq(a.corner_radius, b.corner_radius)
}

/// The state of a freshly made element: at the origin, zero-sized, scale 1,
/// no noise, no rounding, bound to no output and no context.
pub open spec fn initial_state() -> ElementState {
    ElementState {
        loc: LogicalPoint { x: 0, y: 0 },
        size: LogicalSize { w: 0, h: 0 },
        scale: 0x3ff0_0000_0000_0000u64,
        noise: 0,
        output: None,
        context: None,
        corner_radius: 0,
    }
}

impl ElementState {
    /// The state of a freshly made element.
    pub fn initial() -> (r: ElementState)
        ensures
            r == initial_state(),
    {
        ElementState {
            loc: LogicalPoint { x: 0, y: 0 },
            size: LogicalSize { w: 0, h: 0 },
            scale: 0x3ff0_0000_0000_0000u64,
            noise: 0,
            output: None,
            context: None,
            corner_radius: 0,
        }
    }

    /// Whether two states are equal field by field, floats compared as
    /// IEEE values.
    pub fn same_as(&self, other: &ElementState) -> (r: bool)
        ensures
            r == state_eq(*self, *other),
    {
        f64_bits_eq(self.loc.x, other.loc.x) && f64_bits_eq(self.loc.y, other.loc.y)
            && f64_bits_eq(self.size.w, other.size.w) && f64_bits_eq(self.size.h, other.size.h)
            && f64_bits_eq(self.scale, other.scale) && f32_bits_eq(self.noise, other.noise)
            && self.output == other.output && self.context == other.context
            && f32_bits_eq(self.corner_radius, other.corner_radius)
    }
}

} // verus!
