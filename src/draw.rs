//! What one draw of a blur element asks of a backend.
//!
//! Drawing is decided here and carried out by the backend: `draw` returns
//! the one textured-quad call to issue, or none when the element is bound to
//! no output. Every backend issues this same call, so a backend that renders
//! through an intermediate frame passes it on unchanged to the frame it
//! wraps.
use vstd::prelude::*;
use crate::element::BlurRenderElement;
use crate::float_bits::{f32_bits_is_zero, f32_is_zero, F32_ONE};
use crate::state::ElementState;

verus! {

/// A physical-space rectangle in whole pixels.
#[derive(Clone, Copy, Debug, PartialEq, Eq)]
pub struct PhysRect {
    pub x: i32,
    pub y: i32,
    pub w: i32,
    pub h: i32,
}

/// A buffer-space rectangle; each field is the bit pattern of an `f64`.
#[derive(Clone, Copy, Debug)]
pub struct BufferRect {
    pub x: u64,
    pub y: u64,
    pub w: u64,
    pub h: u64,
}

/// A shader program that the draw may select from the shader registry.
#[derive(Clone, Copy, Debug, PartialEq, Eq)]
pub enum ShaderProgram {
    /// The pass that rounds corners and adds noise to the blurred image.
    BlurFinish,
}

/// One uniform handed to the blur-finish program. Float values are `f32`
/// bit patterns.
#[derive(Clone, Copy, Debug)]
pub enum FinishUniform {
    /// `geo`: the destination rectangle as x, y, width, height.
    Geo(PhysRect),
    /// `alpha`: the element's opacity.
    Alpha(u32),
    /// `noise`: the dithering amplitude.
    Noise(u32),
    /// `corner_radius`: the rounding radius in physical pixels.
    CornerRadius(u32),
}

/// The shader name of a uniform.
pub open spec fn uniform_name(u: FinishUniform) -> Seq<char> {
    match u {
        FinishUniform::Geo(_) => "geo"@,
        FinishUniform::Alpha(_) => "alpha"@,
        FinishUniform::Noise(_) => "noise"@,
        FinishUniform::CornerRadius(_) => "corner_radius"@,
    }
}

impl FinishUniform {
    /// The name under which the shader declares this uniform.
    pub fn name(&self) -> (r: &'static str)
        ensures
            r@ == uniform_name(*self),
    {
        match self {
            FinishUniform::Geo(_) => "geo",
            FinishUniform::Alpha(_) => "alpha",
            FinishUniform::Noise(_) => "noise",
            FinishUniform::CornerRadius(_) => "corner_radius",
        }
    }
}

/// The program a state draws with: none for square corners (a zero radius
/// of either sign), the blur-finish pass otherwise.
pub open spec fn program_for(state: ElementState) -> Option<ShaderProgram> {
    if f32_is_zero(state.corner_radius) {
        None
    } else {
        Some(ShaderProgram::BlurFinish)
    }
}

/// The uniforms a state draws with into `dst`: none without a program, and
/// otherwise `geo`, `alpha`, `noise` and `corner_radius`, in that order.
pub open spec fn uniforms_for(state: ElementState, dst: PhysRect) -> Seq<FinishUniform> {
    if f32_is_zero(state.corner_radius) {
        seq![]
    } else {
        seq![
            FinishUniform::Geo(dst),
            FinishUniform::Alpha(F32_ONE),
            FinishUniform::Noise(state.noise),
            FinishUniform::CornerRadius(state.corner_radius),
        ]
    }
}

/// One textured-quad draw: sample the blurred framebuffer of `output` over
/// `src`, cover `dst` where `damage` asks, with the identity transform.
pub struct QuadCall {
    pub output: u64,
    pub src: BufferRect,
    pub dst: PhysRect,
    pub damage: Vec<PhysRect>,
    pub opaque_regions: Vec<PhysRect>,
    pub alpha: u32,
    pub program: Option<ShaderProgram>,
    pub uniforms: Vec<FinishUniform>,
}

/// `call` is the draw that `state` asks for with these arguments.
pub open spec fn is_planned_call(
    call: QuadCall,
    state: ElementState,
    src: BufferRect,
    dst: PhysRect,
    damage: Seq<PhysRect>,
    opaque_regions: Seq<PhysRect>,
) -> bool {
    &&& state.output == Some(call.output)
    &&& call.src == src
    &&& call.dst == dst
    &&& call.damage@ == damage
    &&& call.opaque_regions@ == opaque_regions
    &&& call.alpha == F32_ONE
    &&& call.program == program_for(state)
    &&& call.uniforms@ == uniforms_for(state, dst)
}

impl<I> BlurRenderElement<I> {
    /// The draw call for this element: none when it is bound to no output
    /// (drawing is then a successful no-op), and otherwise one quad over the
    /// output's blurred framebuffer with the given rectangles and regions.
    pub fn draw(
        &self,
        src: BufferRect,
        dst: PhysRect,
        damage: &[PhysRect],
        opaque_regions: &[PhysRect],
    ) -> (r: Option<QuadCall>)
        ensures
            r is None <==> self.spec_state().output is None,
            r matches Some(call) ==> is_planned_call(
                call,
                self.spec_state(),
                src,
                dst,
                damage@,
                opaque_regions@,
            ),
    {
        let state = self.state();
        match state.output {
            None => None,
            Some(output) => {
                let alpha = self.alpha();
                let square = f32_bits_is_zero(state.corner_radius);
                let program = if square {
                    None
                } else {
                    Some(ShaderProgram::BlurFinish)
                };
                let uniforms: Vec<FinishUniform> = if square {
                    Vec::new()
                } else {
                    vec![
                        FinishUniform::Geo(dst),
                        FinishUniform::Alpha(alpha),
                        FinishUniform::Noise(state.noise),
                        FinishUniform::CornerRadius(state.corner_radius),
                    ]
                };
                Some(
                    QuadCall {
                        output,
                        src,
                        dst,
                        damage: vstd::slice::slice_to_vec(damage),
                        opaque_regions: vstd::slice::slice_to_vec(opaque_regions),
                        alpha,
                        program,
                        uniforms,
                    },
                )
            },
        }
    }

}

/// The call a draw plans is fixed by the element's state and the draw's
/// arguments alone: two planned calls for the same state and arguments
/// agree on the texture, both rectangles, both region lists, the alpha, the
/// program and the uniforms. A backend that forwards the call it is handed
/// thus issues what the direct backend would.
pub proof fn lemma_planned_call_is_determined(
    a: QuadCall,
    b: QuadCall,
    state: ElementState,
    src: BufferRect,
    dst: PhysRect,
    damage: Seq<PhysRect>,
    opaque_regions: Seq<PhysRect>,
)
    requires
        is_planned_call(a, state, src, dst, damage, opaque_regions),
        is_planned_call(b, state, src, dst, damage, opaque_regions),
    ensures
        a.output == b.output,
        a.src == b.src,
        a.dst == b.dst,
        a.damage@ == b.damage@,
        a.opaque_regions@ == b.opaque_regions@,
        a.alpha == b.alpha,
        a.program == b.program,
        a.uniforms@ == b.uniforms@,
{
}

} // verus!
