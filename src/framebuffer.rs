use vstd::prelude::*;

use crate::base::{
    bound_in, current_in, lemma_slot_injective, released_in, scoped_calls, scoped_in, BindGuard, BindingPoint,
    Context, Resource, NUM_BINDING_POINTS,
};
use crate::calls::GlCall;
use crate::program::{Linked, Program};
use crate::texture::{Dimension, TexTarget, Texture};
use crate::utils::Error;
use crate::vertex::{DrawMode, IndexType, VertexArray};

verus! {

/// Completeness status of a framebuffer, as the driver reports it.
#[derive(Debug, Clone, Copy, PartialEq, Eq, Structural)]
pub enum FramebufferStatus {
    Undefined,
    IncompleteAttachment,
    MissingAttachment,
    IncompleteDrawBuffer,
    IncompleteReadBuffer,
    Unsupported,
    IncompleteMultisample,
    IncompleteLayerTargets,
    Complete,
}

/// Blend factor.
#[derive(Debug, Clone, Copy, PartialEq, Eq, Structural)]
pub enum Blend {
    Zero,
    One,
    SrcColor,
    OneMinusSrcColor,
    DstColor,
    OneMinusDstColor,
    SrcAlpha,
    OneMinusSrcAlpha,
    DstAlpha,
    OneMinusDstAlpha,
    ConstantColor,
    OneMinusConstantColor,
    ConstantAlpha,
    OneMinusConstantAlpha,
    SrcAlphaSaturate,
    Src1Color,
    OneMinusSrc1Color,
    Src1Alpha,
    OneMinusSrc1Alpha,
}

/// Comparison of the depth test.
#[derive(Debug, Clone, Copy, PartialEq, Eq, Structural)]
pub enum DepthTestFunction {
    Less,
    Equal,
    LEqual,
    Greater,
    NotEqual,
    GEqual,
    Always,
}

/// How source and destination colors combine when blending.
#[derive(Debug, Clone, Copy, PartialEq, Eq, Structural)]
pub enum BlendFunction {
    Add,
    Subtract,
    RevSubtract,
    Min,
    Max,
}

/// Pipeline features that are switched on and off for the whole context.
#[derive(Debug, Clone, Copy, PartialEq, Eq, Structural)]
pub enum Capability {
    DepthTest,
    Blend,
    ScissorTest,
}

/// A rectangle in window pixels.
#[derive(Debug, Clone, Copy, PartialEq, Eq, Structural)]
pub struct Rect {
    pub x: i32,
    pub y: i32,
    pub width: i32,
    pub height: i32,
}

/// Attachment slot of a framebuffer.
#[derive(Debug, Clone, Copy, PartialEq, Eq, Structural)]
pub enum Attachment {
    Color(u8),
    Depth,
    DepthStencil,
}

/// Which buffers a clear resets.
#[derive(Debug, Clone, Copy, PartialEq, Eq, Structural)]
pub struct ClearBuffer {
    pub color: bool,
    pub depth: bool,
    pub stencil: bool,
}

/// Identifier of a framebuffer; `0` is the default framebuffer the driver provides.
#[derive(Debug, Clone, Copy, PartialEq, Eq, Structural)]
pub struct FramebufferId(pub u32);

impl FramebufferId {
    /// The identifier of a framebuffer object made by the driver; `None` for `0`, which names
    /// the default framebuffer.
    pub fn new(id: u32) -> (r: Option<FramebufferId>)
        ensures
            r is Some <==> id != 0,
            r matches Some(f) ==> f.0 == id,
    {
        if id == 0 {
            None
        } else {
            Some(FramebufferId(id))
        }
    }
}

/// The target a depth-capable attachment of a texture of dimensionality `dim` goes through:
/// only 1D, 2D and 3D textures have one.
pub open spec fn spec_depth_target(dim: Dimension) -> Option<TexTarget> {
    match dim {
        Dimension::D1 => Some(TexTarget::Tex1D),
        Dimension::D2 => Some(TexTarget::Tex2D),
        Dimension::D3 => Some(TexTarget::Tex3D),
        _ => None,
    }
}

/// The target through which a depth texture of dimensionality `dim` is attached.
pub fn depth_target(dim: Dimension) -> (r: Option<TexTarget>)
    ensures
        r == spec_depth_target(dim),
{
    match dim {
        Dimension::D1 => Some(TexTarget::Tex1D),
        Dimension::D2 => Some(TexTarget::Tex2D),
        Dimension::D3 => Some(TexTarget::Tex3D),
        _ => None,
    }
}

/// The result of checking a framebuffer for completeness: only a complete one draws.
pub open spec fn spec_assert_complete(status: FramebufferStatus) -> Result<(), Error> {
    if status == FramebufferStatus::Complete {
        Ok(())
    } else {
        Err(Error::Incomplete(status))
    }
}

/// One end of a range of indices.
#[derive(Debug, Clone, Copy, PartialEq, Eq, Structural)]
pub enum RangeBound {
    Included(i32),
    Excluded(i32),
    Unbounded,
}

/// First index of a range that starts at `b`, or at `default` when unbounded.
pub open spec fn spec_range_start(b: RangeBound, default: i32) -> int {
    match b {
        RangeBound::Included(i) => i as int,
        RangeBound::Excluded(i) => i + 1,
        RangeBound::Unbounded => default as int,
    }
}

/// End, exclusive, of a range that ends at `b`, or at `default` when unbounded.
pub open spec fn spec_range_end(b: RangeBound, default: i32) -> int {
    match b {
        RangeBound::Included(i) => i + 1,
        RangeBound::Excluded(i) => i as int,
        RangeBound::Unbounded => default as int,
    }
}

pub open spec fn clamp_i32(v: int) -> i32 {
    if v > i32::MAX {
        i32::MAX
    } else {
        v as i32
    }
}

/// The range from `start` to `end`, cut to `limit_start..limit_end`; unbounded ends take the
/// limit's.
pub fn normalize_range(start: RangeBound, end: RangeBound, limit_start: i32, limit_end: i32) -> (r: (i32, i32))
    ensures
        r.0 == clamp_i32(if spec_range_start(start, limit_start) > limit_start {
            spec_range_start(start, limit_start)
        } else {
            limit_start as int
        }),
        r.1 == (if spec_range_end(end, limit_end) < limit_end {
            spec_range_end(end, limit_end)
        } else {
            limit_end as int
        }),
{
    let s: i64 = match start {
        RangeBound::Included(i) => i as i64,
        RangeBound::Excluded(i) => i as i64 + 1,
        RangeBound::Unbounded => limit_start as i64,
    };
    let e: i64 = match end {
        RangeBound::Included(i) => i as i64 + 1,
        RangeBound::Excluded(i) => i as i64,
        RangeBound::Unbounded => limit_end as i64,
    };
    let lo: i64 = if s > limit_start as i64 {
        s
    } else {
        limit_start as i64
    };
    let hi: i64 = if e < limit_end as i64 {
        e
    } else {
        limit_end as i64
    };
    let lo32: i32 = if lo > i32::MAX as i64 {
        i32::MAX
    } else {
        lo as i32
    };
    (lo32, hi as i32)
}

/// The binding table after `outer`, then `middle`, then the vertex array were bound and
/// released again in reverse order.
pub open spec fn nested_slots(
    slots: Seq<u32>,
    outer: BindingPoint,
    outer_id: u32,
    middle: BindingPoint,
    middle_id: u32,
    vao: u32,
    restore: bool,
) -> Seq<u32> {
    let v = BindingPoint::VertexArray;
    let s3 = bound_in(bound_in(bound_in(slots, outer, outer_id), middle, middle_id), v, vao);
    let s4 = released_in(s3, BindGuard { point: v, previous: current_in(slots, v), bound: vao }, restore);
    let s5 = released_in(
        s4,
        BindGuard { point: middle, previous: current_in(slots, middle), bound: middle_id },
        restore,
    );
    released_in(s5, BindGuard { point: outer, previous: current_in(slots, outer), bound: outer_id }, restore)
}

/// A draw leaves every binding as it found it when the context restores bindings and neither
/// outer binding is of the default framebuffer.
pub proof fn lemma_draw_restores_bindings(
    slots: Seq<u32>,
    outer: BindingPoint,
    outer_id: u32,
    middle: BindingPoint,
    middle_id: u32,
    vao: u32,
)
    requires
        slots.len() == NUM_BINDING_POINTS,
        outer != middle,
        outer != BindingPoint::VertexArray,
        middle != BindingPoint::VertexArray,
        !(outer == BindingPoint::Framebuffer && outer_id == 0),
        !(middle == BindingPoint::Framebuffer && middle_id == 0),
    ensures
        nested_slots(slots, outer, outer_id, middle, middle_id, vao, true) == slots,
{
    let v = BindingPoint::VertexArray;
    lemma_slot_injective(outer, middle);
    lemma_slot_injective(outer, v);
    lemma_slot_injective(middle, v);
    lemma_slot_injective(middle, outer);
    lemma_slot_injective(v, outer);
    lemma_slot_injective(v, middle);
    assert(nested_slots(slots, outer, outer_id, middle, middle_id, vao, true) =~= slots);
}

/// A render target: the default framebuffer or a framebuffer object.
#[derive(Debug)]
pub struct Framebuffer {
    id: FramebufferId,
}

impl Resource for Framebuffer {
    closed spec fn spec_id(&self) -> u32 {
        self.id.0
    }

    closed spec fn spec_point(&self) -> BindingPoint {
        BindingPoint::Framebuffer
    }

    fn id(&self) -> (r: u32) {
        self.id.0
    }

    fn binding_point(&self) -> (r: BindingPoint) {
        BindingPoint::Framebuffer
    }
}

impl Framebuffer {
    /// The default framebuffer. It is never deleted, and ending its binding does nothing.
    pub fn backbuffer() -> (r: Framebuffer)
        ensures
            r.spec_id() == 0,
    {
        Framebuffer { id: FramebufferId(0) }
    }

    /// A framebuffer on the object `handle` that the driver created.
    pub fn new(handle: u32) -> (r: Result<Framebuffer, Error>)
        ensures
            r is Ok <==> handle != 0,
            r is Err ==> r matches Err(Error::NullHandle),
            r matches Ok(f) ==> f.spec_id() == handle,
    {
        match FramebufferId::new(handle) {
            Some(id) => Ok(Framebuffer { id }),
            None => Err(Error::NullHandle),
        }
    }

    pub fn framebuffer_id(&self) -> (r: FramebufferId)
        ensures
            r.0 == self.spec_id(),
    {
        self.id
    }

    /// Sets the viewport.
    pub fn viewport(ctx: &mut Context, rect: Rect)
        ensures
            final(ctx).slots() == old(ctx).slots(),
            final(ctx).wf() == old(ctx).wf(),
            final(ctx).pending() == old(ctx).pending().push(GlCall::Viewport { rect }),
    {
        ctx.push(GlCall::Viewport { rect });
    }

    /// Resets the selected buffers of the framebuffer.
    pub fn do_clear(&self, ctx: &mut Context, mode: ClearBuffer)
        requires
            old(ctx).wf(),
        ensures
            final(ctx).wf(),
            final(ctx).spec_alignment() == old(ctx).spec_alignment(),
            final(ctx).restores() == old(ctx).restores(),
            final(ctx).slots() == scoped_in(old(ctx).slots(), BindingPoint::Framebuffer, self.spec_id(), old(ctx).restores()),
            final(ctx).pending() == old(ctx).pending() + scoped_calls(
                BindingPoint::Framebuffer,
                self.spec_id(),
                old(ctx).spec_current(BindingPoint::Framebuffer),
                old(ctx).restores(),
                seq![GlCall::Clear { color: mode.color, depth: mode.depth, stencil: mode.stencil }],
            ),
    {
        ctx.run_bound(
            BindingPoint::Framebuffer,
            self.id.0,
            vec![GlCall::Clear { color: mode.color, depth: mode.depth, stencil: mode.stencil }],
        );
    }

    /// Turns the depth test on with comparison `func`.
    pub fn enable_depth_test(ctx: &mut Context, func: DepthTestFunction)
        ensures
            final(ctx).slots() == old(ctx).slots(),
            final(ctx).wf() == old(ctx).wf(),
            final(ctx).pending() == old(ctx).pending() + seq![
                GlCall::DepthFunc { depth_test: func },
                GlCall::SetCapability { capability: Capability::DepthTest, enabled: true },
            ],
    {
        ctx.push(GlCall::DepthFunc { depth_test: func });
        ctx.push(GlCall::SetCapability { capability: Capability::DepthTest, enabled: true });
    }

    pub fn disable_depth_test(ctx: &mut Context)
        ensures
            final(ctx).slots() == old(ctx).slots(),
            final(ctx).wf() == old(ctx).wf(),
            final(ctx).pending() == old(ctx).pending().push(
                GlCall::SetCapability { capability: Capability::DepthTest, enabled: false },
            ),
    {
        ctx.push(GlCall::SetCapability { capability: Capability::DepthTest, enabled: false });
    }

    /// Turns blending on with factors `source` and `target`.
    pub fn enable_blending(ctx: &mut Context, source: Blend, target: Blend)
        ensures
            final(ctx).slots() == old(ctx).slots(),
            final(ctx).wf() == old(ctx).wf(),
            final(ctx).pending() == old(ctx).pending() + seq![
                GlCall::BlendFunc { src_factor: source, dst_factor: target },
                GlCall::SetCapability { capability: Capability::Blend, enabled: true },
            ],
    {
        ctx.push(GlCall::BlendFunc { src_factor: source, dst_factor: target });
        ctx.push(GlCall::SetCapability { capability: Capability::Blend, enabled: true });
    }

    /// Turns blending off and puts the factors back to their defaults.
    pub fn disable_blending(ctx: &mut Context)
        ensures
            final(ctx).slots() == old(ctx).slots(),
            final(ctx).wf() == old(ctx).wf(),
            final(ctx).pending() == old(ctx).pending() + seq![
                GlCall::BlendFunc { src_factor: Blend::One, dst_factor: Blend::Zero },
                GlCall::SetCapability { capability: Capability::Blend, enabled: false },
            ],
    {
        ctx.push(GlCall::BlendFunc { src_factor: Blend::One, dst_factor: Blend::Zero });
        ctx.push(GlCall::SetCapability { capability: Capability::Blend, enabled: false });
    }

    pub fn blend_equation(ctx: &mut Context, func: BlendFunction)
        ensures
            final(ctx).slots() == old(ctx).slots(),
            final(ctx).wf() == old(ctx).wf(),
            final(ctx).pending() == old(ctx).pending().push(GlCall::BlendEquation { equation: func }),
    {
        ctx.push(GlCall::BlendEquation { equation: func });
    }

    /// Restricts drawing to `rect`.
    pub fn enable_scissor(ctx: &mut Context, rect: Rect)
        ensures
            final(ctx).slots() == old(ctx).slots(),
            final(ctx).wf() == old(ctx).wf(),
            final(ctx).pending() == old(ctx).pending() + seq![
                GlCall::SetCapability { capability: Capability::ScissorTest, enabled: true },
                GlCall::Scissor { rect },
            ],
    {
        ctx.push(GlCall::SetCapability { capability: Capability::ScissorTest, enabled: true });
        ctx.push(GlCall::Scissor { rect });
    }

    pub fn disable_scissor(ctx: &mut Context)
        ensures
            final(ctx).slots() == old(ctx).slots(),
            final(ctx).wf() == old(ctx).wf(),
            final(ctx).pending() == old(ctx).pending().push(
                GlCall::SetCapability { capability: Capability::ScissorTest, enabled: false },
            ),
    {
        ctx.push(GlCall::SetCapability { capability: Capability::ScissorTest, enabled: false });
    }

    /// Attaches level 0 of `texture` to color slot `attachment`.
    pub fn attach_color(&self, ctx: &mut Context, attachment: u8, texture: &Texture)
        requires
            old(ctx).wf(),
        ensures
            final(ctx).wf(),
            final(ctx).spec_alignment() == old(ctx).spec_alignment(),
            final(ctx).restores() == old(ctx).restores(),
            final(ctx).slots() == scoped_in(old(ctx).slots(), BindingPoint::Framebuffer, self.spec_id(), old(ctx).restores()),
            final(ctx).pending() == old(ctx).pending() + scoped_calls(
                BindingPoint::Framebuffer,
                self.spec_id(),
                old(ctx).spec_current(BindingPoint::Framebuffer),
                old(ctx).restores(),
                seq![GlCall::FramebufferTexture { attachment: Attachment::Color(attachment), texture: texture.spec_id() }],
            ),
    {
        let t = texture.id();
        ctx.run_bound(
            BindingPoint::Framebuffer,
            self.id.0,
            vec![GlCall::FramebufferTexture { attachment: Attachment::Color(attachment), texture: t }],
        );
    }

    /// Attaches a depth texture to the depth or depth-stencil slot. The texture's
    /// dimensionality selects the attach call; array textures have none and are refused, as
    /// are textures of a color format. A refused texture issues no driver call.
    fn attach_depth_slot(&self, ctx: &mut Context, slot: Attachment, texture: &Texture) -> (r: Result<(), Error>)
        requires
            old(ctx).wf(),
        ensures
            final(ctx).wf(),
            final(ctx).spec_alignment() == old(ctx).spec_alignment(),
            final(ctx).restores() == old(ctx).restores(),
            r is Ok ==> final(ctx).slots() == scoped_in(old(ctx).slots(), BindingPoint::Framebuffer, self.spec_id(), old(ctx).restores()),
            r is Ok <==> texture.spec_format().spec_is_depth() && spec_depth_target(texture.spec_target().dim) is Some,
            r is Err ==> *final(ctx) == *old(ctx),
            texture.spec_format().spec_is_depth() && spec_depth_target(texture.spec_target().dim) is None
                ==> r matches Err(Error::UnsupportedDimension(_)),
            r is Ok ==> final(ctx).pending() == old(ctx).pending() + scoped_calls(
                BindingPoint::Framebuffer,
                self.spec_id(),
                old(ctx).spec_current(BindingPoint::Framebuffer),
                old(ctx).restores(),
                seq![GlCall::FramebufferTextureTarget {
                    attachment: slot,
                    target: spec_depth_target(texture.spec_target().dim).unwrap(),
                    texture: texture.spec_id(),
                }],
            ),
    {
        let format = texture.format();
        if !format.is_depth() {
            return Err(Error::UnsupportedFormat);
        }
        let dim = texture.dimension();
        let target = match depth_target(dim) {
            Some(t) => t,
            None => {
                return Err(Error::UnsupportedDimension(dim));
            },
        };
        let t = texture.id();
        ctx.run_bound(
            BindingPoint::Framebuffer,
            self.id.0,
            vec![GlCall::FramebufferTextureTarget { attachment: slot, target, texture: t }],
        );
        Ok(())
    }

    /// Attaches a depth texture to the depth slot; see [`Framebuffer::attach_depth_stencil`].
    pub fn attach_depth(&self, ctx: &mut Context, texture: &Texture) -> (r: Result<(), Error>)
        requires
            old(ctx).wf(),
        ensures
            final(ctx).wf(),
            final(ctx).spec_alignment() == old(ctx).spec_alignment(),
            final(ctx).restores() == old(ctx).restores(),
            r is Ok ==> final(ctx).slots() == scoped_in(old(ctx).slots(), BindingPoint::Framebuffer, self.spec_id(), old(ctx).restores()),
            r is Ok <==> texture.spec_format().spec_is_depth() && spec_depth_target(texture.spec_target().dim) is Some,
            r is Err ==> *final(ctx) == *old(ctx),
            texture.spec_format().spec_is_depth() && spec_depth_target(texture.spec_target().dim) is None
                ==> r matches Err(Error::UnsupportedDimension(_)),
            r is Ok ==> final(ctx).pending() == old(ctx).pending() + scoped_calls(
                BindingPoint::Framebuffer,
                self.spec_id(),
                old(ctx).spec_current(BindingPoint::Framebuffer),
                old(ctx).restores(),
                seq![GlCall::FramebufferTextureTarget {
                    attachment: Attachment::Depth,
                    target: spec_depth_target(texture.spec_target().dim).unwrap(),
                    texture: texture.spec_id(),
                }],
            ),
    {
        self.attach_depth_slot(ctx, Attachment::Depth, texture)
    }

    /// Attaches a depth texture to the combined depth-stencil slot. A 1D, 2D or 3D texture goes
    /// through the attach call of its dimensionality; any other, an array texture for one, is
    /// refused and issues no driver call.
    pub fn attach_depth_stencil(&mut self, ctx: &mut Context, texture: &Texture) -> (r: Result<(), Error>)
        requires
            old(ctx).wf(),
        ensures
            final(ctx).wf(),
            final(ctx).spec_alignment() == old(ctx).spec_alignment(),
            final(ctx).restores() == old(ctx).restores(),
            r is Ok ==> final(ctx).slots() == scoped_in(old(ctx).slots(), BindingPoint::Framebuffer, old(self).spec_id(), old(ctx).restores()),
            final(self).spec_id() == old(self).spec_id(),
            r is Ok <==> texture.spec_format().spec_is_depth() && spec_depth_target(texture.spec_target().dim) is Some,
            r is Err ==> *final(ctx) == *old(ctx),
            texture.spec_format().spec_is_depth() && spec_depth_target(texture.spec_target().dim) is None
                ==> r matches Err(Error::UnsupportedDimension(_)),
            r is Ok ==> final(ctx).pending() == old(ctx).pending() + scoped_calls(
                BindingPoint::Framebuffer,
                old(self).spec_id(),
                old(ctx).spec_current(BindingPoint::Framebuffer),
                old(ctx).restores(),
                seq![GlCall::FramebufferTextureTarget {
                    attachment: Attachment::DepthStencil,
                    target: spec_depth_target(texture.spec_target().dim).unwrap(),
                    texture: texture.spec_id(),
                }],
            ),
    {
        self.attach_depth_slot(ctx, Attachment::DepthStencil, texture)
    }

    /// Selects the color slots drawn into.
    pub fn enable_buffers(&self, ctx: &mut Context, slots: Vec<u32>)
        requires
            old(ctx).wf(),
        ensures
            final(ctx).wf(),
            final(ctx).spec_alignment() == old(ctx).spec_alignment(),
            final(ctx).restores() == old(ctx).restores(),
            final(ctx).slots() == scoped_in(old(ctx).slots(), BindingPoint::Framebuffer, self.spec_id(), old(ctx).restores()),
            final(ctx).pending() == old(ctx).pending() + scoped_calls(
                BindingPoint::Framebuffer,
                self.spec_id(),
                old(ctx).spec_current(BindingPoint::Framebuffer),
                old(ctx).restores(),
                seq![GlCall::DrawBuffers { slots }],
            ),
    {
        ctx.run_bound(BindingPoint::Framebuffer, self.id.0, vec![GlCall::DrawBuffers { slots }]);
    }

    /// Binds the framebuffer so that the driver can report its status; release the guard once
    /// the status is read.
    pub fn check_status(&self, ctx: &mut Context) -> (g: crate::base::BindGuard)
        requires
            old(ctx).wf(),
        ensures
            final(ctx).wf(),
            final(ctx).slots() == crate::base::bound_in(old(ctx).slots(), BindingPoint::Framebuffer, self.spec_id()),
            final(ctx).pending() == old(ctx).pending().push(
                GlCall::Bind { point: BindingPoint::Framebuffer, id: self.spec_id() },
            ),
            g == (crate::base::BindGuard {
                point: BindingPoint::Framebuffer,
                previous: old(ctx).spec_current(BindingPoint::Framebuffer),
                bound: self.spec_id(),
            }),
    {
        ctx.bind_raw(BindingPoint::Framebuffer, self.id.0)
    }

    /// Turns the status the driver reported into a result: only "complete" passes; any other
    /// status is the error.
    pub fn assert_complete(&self, status: FramebufferStatus) -> (r: Result<(), Error>)
        ensures
            r == spec_assert_complete(status),
    {
        if status == FramebufferStatus::Complete {
            Ok(())
        } else {
            Err(Error::Incomplete(status))
        }
    }

    /// The calls of a draw: `program`, this framebuffer and `vao` bound, one inside the other,
    /// around `call`.
    pub open spec fn draw_calls(
        self,
        outer: BindingPoint,
        outer_id: u32,
        middle: BindingPoint,
        middle_id: u32,
        vao: u32,
        ctx: Context,
        call: GlCall,
    ) -> Seq<GlCall> {
        scoped_calls(
            outer,
            outer_id,
            ctx.spec_current(outer),
            ctx.restores(),
            scoped_calls(
                middle,
                middle_id,
                ctx.spec_current(middle),
                ctx.restores(),
                scoped_calls(
                    BindingPoint::VertexArray,
                    vao,
                    ctx.spec_current(BindingPoint::VertexArray),
                    ctx.restores(),
                    seq![call],
                ),
            ),
        )
    }

    /// Runs `call` with `outer`, then `middle`, then the vertex array bound.
    fn run_draw(
        ctx: &mut Context,
        outer: BindingPoint,
        outer_id: u32,
        middle: BindingPoint,
        middle_id: u32,
        vao: u32,
        call: GlCall,
    )
        requires
            old(ctx).wf(),
            outer != middle,
            outer != BindingPoint::VertexArray,
            middle != BindingPoint::VertexArray,
        ensures
            final(ctx).wf(),
            final(ctx).spec_alignment() == old(ctx).spec_alignment(),
            final(ctx).restores() == old(ctx).restores(),
            final(ctx).slots() == nested_slots(old(ctx).slots(), outer, outer_id, middle, middle_id, vao, old(ctx).restores()),
            final(ctx).pending() == old(ctx).pending() + scoped_calls(
                outer,
                outer_id,
                old(ctx).spec_current(outer),
                old(ctx).restores(),
                scoped_calls(
                    middle,
                    middle_id,
                    old(ctx).spec_current(middle),
                    old(ctx).restores(),
                    scoped_calls(
                        BindingPoint::VertexArray,
                        vao,
                        old(ctx).spec_current(BindingPoint::VertexArray),
                        old(ctx).restores(),
                        seq![call],
                    ),
                ),
            ),
    {
        proof {
            old(ctx).lemma_wf();
            crate::base::lemma_bind_is_local(old(ctx).slots(), outer, middle, outer_id);
            crate::base::lemma_bind_is_local(old(ctx).slots(), outer, BindingPoint::VertexArray, outer_id);
            crate::base::lemma_bind_is_local(
                crate::base::bound_in(old(ctx).slots(), outer, outer_id),
                middle,
                BindingPoint::VertexArray,
                middle_id,
            );
        }
        let ghost call_g = call;
        let g1 = ctx.bind_raw(outer, outer_id);
        let g2 = ctx.bind_raw(middle, middle_id);
        let g3 = ctx.bind_raw(BindingPoint::VertexArray, vao);
        ctx.push(call);
        ctx.release(g3);
        ctx.release(g2);
        ctx.release(g1);
        assert(ctx.pending() =~= old(ctx).pending() + scoped_calls(
            outer,
            outer_id,
            old(ctx).spec_current(outer),
            old(ctx).restores(),
            scoped_calls(
                middle,
                middle_id,
                old(ctx).spec_current(middle),
                old(ctx).restores(),
                scoped_calls(
                    BindingPoint::VertexArray,
                    vao,
                    old(ctx).spec_current(BindingPoint::VertexArray),
                    old(ctx).restores(),
                    seq![call_g],
                ),
            ),
        ));
    }

    /// Draws vertices `first..end` of `vao` with `program` into this framebuffer, the three
    /// bound one inside the other for the call.
    pub fn draw(
        &self,
        ctx: &mut Context,
        program: &Program<Linked>,
        vao: &VertexArray,
        mode: DrawMode,
        first: i32,
        end: i32,
    ) -> (r: Result<(), Error>)
        requires
            old(ctx).wf(),
        ensures
            final(ctx).wf(),
            r is Ok <==> 0 <= first <= end,
            final(ctx).spec_alignment() == old(ctx).spec_alignment(),
            final(ctx).restores() == old(ctx).restores(),
            r is Ok ==> final(ctx).slots() == nested_slots(
                old(ctx).slots(),
                BindingPoint::Program,
                program.spec_handle(),
                BindingPoint::Framebuffer,
                self.spec_id(),
                vao.spec_id(),
                old(ctx).restores(),
            ),
            old(ctx).restores() && self.spec_id() != 0 ==> final(ctx).slots() == old(ctx).slots(),
            r is Err ==> *final(ctx) == *old(ctx) && r matches Err(Error::OutOfBounds),
            r is Ok ==> final(ctx).pending() == old(ctx).pending() + self.draw_calls(
                BindingPoint::Program,
                program.spec_handle(),
                BindingPoint::Framebuffer,
                self.spec_id(),
                vao.spec_id(),
                *old(ctx),
                GlCall::DrawArrays { mode, first, count: (end - first) as i32 },
            ),
    {
        if first < 0 || first > end {
            return Err(Error::OutOfBounds);
        }
        let pid = program.program_id().get();
        proof {
            old(ctx).lemma_wf();
            if self.id.0 != 0 {
                lemma_draw_restores_bindings(old(ctx).slots(), BindingPoint::Program, pid,
                    BindingPoint::Framebuffer, self.id.0, vao.spec_id());
            }
        }
        Framebuffer::run_draw(
            ctx,
            BindingPoint::Program,
            pid,
            BindingPoint::Framebuffer,
            self.id.0,
            vao.id(),
            GlCall::DrawArrays { mode, first, count: end - first },
        );
        Ok(())
    }

    /// Draws indices `start..end` of the element buffer of `vao` with `program` into this
    /// framebuffer. The vertex array must have an element buffer.
    pub fn draw_elements(
        &self,
        ctx: &mut Context,
        program: &Program<Linked>,
        vao: &VertexArray,
        mode: DrawMode,
        start: i32,
        end: i32,
    ) -> (r: Result<(), Error>)
        requires
            old(ctx).wf(),
        ensures
            final(ctx).wf(),
            vao.spec_element() is None ==> r matches Err(Error::MissingElementBuffer),
            r is Ok <==> vao.spec_element() is Some && 0 <= start <= end,
            final(ctx).spec_alignment() == old(ctx).spec_alignment(),
            final(ctx).restores() == old(ctx).restores(),
            r is Ok ==> final(ctx).slots() == nested_slots(
                old(ctx).slots(),
                BindingPoint::Framebuffer,
                self.spec_id(),
                BindingPoint::Program,
                program.spec_handle(),
                vao.spec_id(),
                old(ctx).restores(),
            ),
            old(ctx).restores() && self.spec_id() != 0 ==> final(ctx).slots() == old(ctx).slots(),
            r is Err ==> *final(ctx) == *old(ctx),
            r is Ok ==> final(ctx).pending() == old(ctx).pending() + self.draw_calls(
                BindingPoint::Framebuffer,
                self.spec_id(),
                BindingPoint::Program,
                program.spec_handle(),
                vao.spec_id(),
                *old(ctx),
                GlCall::DrawElements {
                    mode,
                    count: (end - start) as i32,
                    index_type: vao.spec_element().unwrap(),
                    byte_offset: (start * vao.spec_element().unwrap().spec_size()) as u64,
                },
            ),
    {
        let index_type = match vao.element() {
            Some(t) => t,
            None => {
                return Err(Error::MissingElementBuffer);
            },
        };
        if start < 0 || start > end {
            return Err(Error::OutOfBounds);
        }
        let pid = program.program_id().get();
        let size = index_type.size() as u64;
        proof {
            assert(size <= 4);
            assert(start as u64 * size <= 0x7fff_ffffu64 * 4) by (nonlinear_arith)
                requires 0 <= start <= 0x7fff_ffff, size <= 4;
        }
        let offset = start as u64 * size;
        proof {
            old(ctx).lemma_wf();
            if self.id.0 != 0 {
                lemma_draw_restores_bindings(old(ctx).slots(), BindingPoint::Framebuffer, self.id.0,
                    BindingPoint::Program, pid, vao.spec_id());
            }
        }
        Framebuffer::run_draw(
            ctx,
            BindingPoint::Framebuffer,
            self.id.0,
            BindingPoint::Program,
            pid,
            vao.id(),
            GlCall::DrawElements { mode, count: end - start, index_type, byte_offset: offset },
        );
        Ok(())
    }

    /// Deletes the framebuffer object; the default framebuffer is never deleted.
    pub fn delete(self, ctx: &mut Context)
        ensures
            final(ctx).slots() == old(ctx).slots(),
            final(ctx).wf() == old(ctx).wf(),
            final(ctx).pending() == if self.spec_id() == 0 {
                old(ctx).pending()
            } else {
                old(ctx).pending().push(GlCall::DeleteFramebuffer { id: self.spec_id() })
            },
    {
        if self.id.0 != 0 {
            ctx.push(GlCall::DeleteFramebuffer { id: self.id.0 });
        }
    }
}

} // verus!
