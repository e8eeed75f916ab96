use violette::base::{BindingPoint, Context};
use violette::buffer::{Buffer, BufferKind};
use violette::calls::GlCall;
use violette::framebuffer::{normalize_range, Attachment, ClearBuffer, Framebuffer, FramebufferId, FramebufferStatus, RangeBound};
use violette::program::{Program, ScalarKind, UniformShape, UniformValue};
use violette::shader::{Shader, ShaderId, ShaderStage};
use violette::texture::{Channels, Dimension, Subpixel, TexTarget, Texture, TextureFormat};
use violette::utils::Error;
use violette::vertex::{vertex_layout, AttribType, DrawMode, IndexType, VaoId, VertexArray, VertexDesc, VertexField};

const RGBA8: TextureFormat = TextureFormat::Color { channels: Channels::Rgba, subpixel: Subpixel::U8, normalized: true };

fn linked(ctx: &mut Context, handle: u32) -> Program<violette::program::Linked> {
    Program::new(handle).unwrap().link(ctx, true, String::new()).unwrap()
}

#[test]
fn failed_compile_never_links() {
    let mut ctx = Context::new(256, true);
    let vertex = Shader::new(ShaderStage::Vertex, 1, true, String::new());
    let fragment = Shader::new(ShaderStage::Fragment, 2, false, String::from("0:3: syntax error"));
    let r = Program::from_sources(&mut ctx, 10, vertex, Some(fragment), None);
    match r {
        Err(Error::Compile { stage, log }) => {
            assert_eq!(stage, ShaderStage::Fragment);
            assert!(log.contains("syntax error"));
        }
        other => panic!("unexpected {:?}", other.map(|_| ())),
    }
    let calls = ctx.take_calls();
    assert!(!calls.iter().any(|c| matches!(c, GlCall::LinkProgram { .. })));
    assert!(matches!(calls[0], GlCall::DeleteShader { id: 1 }));
    assert!(matches!(calls[1], GlCall::DeleteProgram { id: 10 }));
}

#[test]
fn compiled_stages_are_attached_and_linked() {
    let mut ctx = Context::new(256, true);
    let vertex = Shader::new(ShaderStage::Vertex, 1, true, String::new());
    let fragment = Shader::new(ShaderStage::Fragment, 2, true, String::new());
    let p = Program::from_sources(&mut ctx, 10, vertex, Some(fragment), None).unwrap();
    let calls = ctx.take_calls();
    assert_eq!(calls.len(), 5);
    assert!(matches!(calls[0], GlCall::AttachShader { program: 10, shader: 1 }));
    assert!(matches!(calls[1], GlCall::AttachShader { program: 10, shader: 2 }));
    assert!(matches!(calls[2], GlCall::LinkProgram { program: 10 }));
    let linked = p.link(&mut ctx, true, String::new()).unwrap();
    assert_eq!(linked.program_id().get(), 10);
}

#[test]
fn link_failure_carries_log() {
    let mut ctx = Context::new(256, true);
    let p = Program::new(4).unwrap();
    match p.link(&mut ctx, false, String::from("undefined main")) {
        Err(Error::Link { log }) => assert_eq!(log, "undefined main"),
        _ => panic!("link should fail"),
    }
    assert!(matches!(ctx.take_calls()[0], GlCall::DeleteProgram { id: 4 }));
    assert!(matches!(Shader::new(ShaderStage::Vertex, 0, true, String::new()), Err(Error::NullHandle)));
}

#[test]
fn locations_belong_to_their_program() {
    let mut ctx = Context::new(256, true);
    let p = linked(&mut ctx, 3);
    let q = linked(&mut ctx, 4);
    assert!(p.uniform(-1).is_none());
    let attr = p.attribute(0).unwrap();
    assert!(attr.is_in_program(&p));
    assert!(!attr.is_in_program(&q));
    let loc = p.uniform(2).unwrap();
    assert!(loc.is_in_program(&p));
    let v = UniformValue::new(ScalarKind::Int, UniformShape::Scalar, vec![1]).unwrap();
    assert!(matches!(q.set_uniform(&mut ctx, loc, v), Err(Error::ForeignLocation { location_program: 3, program: 4 })));
    let v = UniformValue::new(ScalarKind::Float, UniformShape::Vec2, vec![0, 0]).unwrap();
    ctx.take_calls();
    p.set_uniform(&mut ctx, loc, v).unwrap();
    let calls = ctx.take_calls();
    assert!(matches!(calls[0], GlCall::Bind { point: BindingPoint::Program, id: 3 }));
    assert!(matches!(calls[1], GlCall::SetUniform { location: 2, .. }));
}

#[test]
fn uniform_values_are_checked() {
    assert!(matches!(UniformValue::new(ScalarKind::Int, UniformShape::Mat3, vec![0; 9]), Err(Error::UnsupportedUniform)));
    assert!(matches!(
        UniformValue::new(ScalarKind::Float, UniformShape::Mat3, vec![0; 4]),
        Err(Error::DataLength { expected: 9, actual: 4 })
    ));
    assert!(UniformValue::new(ScalarKind::Double, UniformShape::Mat4, vec![0; 16]).is_ok());
}

#[test]
fn uniform_descriptions_and_blocks() {
    let mut ctx = Context::new(256, true);
    let p = linked(&mut ctx, 3);
    let descs = p.get_uniforms(&vec![[5, 0x1406, -1, 0], [7, 0x8B5C, 0, 1]]);
    assert_eq!(descs.len(), 2);
    assert_eq!(descs[1].location, 1);
    assert_eq!(descs[0].name_length(), 5);
    assert!(descs[1].is_type(0x8B5C));
    let mut u = Buffer::new(&ctx, 20, BufferKind::Uniform, 16).unwrap();
    u.set(&mut ctx, &[0u8; 32], violette::buffer::BufferUsageHint::Static).unwrap();
    ctx.take_calls();
    let block = p.uniform_block(0, 2);
    let second = u.at(1).unwrap();
    p.bind_block(&mut ctx, block, &second).unwrap();
    let calls = ctx.take_calls();
    assert!(matches!(calls[0], GlCall::BindBufferRange { binding: 2, buffer: 20, offset: 256, size: 256 }));
    assert!(matches!(calls[1], GlCall::UniformBlockBinding { program: 3, block_index: 0, binding: 2 }));
}

#[test]
fn framebuffer_completeness() {
    let fb = Framebuffer::new(1).unwrap();
    assert!(fb.assert_complete(FramebufferStatus::Complete).is_ok());
    assert!(matches!(
        fb.assert_complete(FramebufferStatus::MissingAttachment),
        Err(Error::Incomplete(FramebufferStatus::MissingAttachment))
    ));
    let mut ctx = Context::new(256, true);
    let color = Texture::new(5, 1, 1, 1, Dimension::D2, RGBA8).unwrap();
    fb.attach_color(&mut ctx, 0, &color);
    let calls = ctx.take_calls();
    assert!(matches!(calls[1], GlCall::FramebufferTexture { attachment: Attachment::Color(0), texture: 5 }));
    let g = fb.check_status(&mut ctx);
    assert_eq!(ctx.current(BindingPoint::Framebuffer), Some(1));
    ctx.release(g);
    assert_eq!(ctx.current(BindingPoint::Framebuffer), None);
}

#[test]
fn array_depth_texture_is_refused() {
    let mut ctx = Context::new(256, true);
    let mut fb = Framebuffer::new(1).unwrap();
    let array = Texture::new(5, 4, 4, 2, Dimension::D2Array, TextureFormat::DepthStencil).unwrap();
    assert!(matches!(fb.attach_depth_stencil(&mut ctx, &array), Err(Error::UnsupportedDimension(Dimension::D2Array))));
    let one_d_array = Texture::new(6, 4, 2, 1, Dimension::D1Array, TextureFormat::Depth).unwrap();
    assert!(matches!(fb.attach_depth(&mut ctx, &one_d_array), Err(Error::UnsupportedDimension(Dimension::D1Array))));
    assert!(ctx.take_calls().is_empty());
    let color = Texture::new(7, 4, 4, 1, Dimension::D2, RGBA8).unwrap();
    assert!(matches!(fb.attach_depth(&mut ctx, &color), Err(Error::UnsupportedFormat)));
    let depth = Texture::new(8, 4, 4, 1, Dimension::D2, TextureFormat::DepthStencil).unwrap();
    fb.attach_depth_stencil(&mut ctx, &depth).unwrap();
    let calls = ctx.take_calls();
    assert!(matches!(
        calls[1],
        GlCall::FramebufferTextureTarget { attachment: Attachment::DepthStencil, target: TexTarget::Tex2D, texture: 8 }
    ));
}

#[test]
fn backbuffer_is_never_unbound_or_deleted() {
    let mut ctx = Context::new(256, true);
    let back = Framebuffer::backbuffer();
    back.do_clear(&mut ctx, ClearBuffer { color: true, depth: true, stencil: false });
    let calls = ctx.take_calls();
    assert_eq!(calls.len(), 2);
    assert!(matches!(calls[1], GlCall::Clear { color: true, depth: true, stencil: false }));
    back.delete(&mut ctx);
    assert!(ctx.take_calls().is_empty());
    assert!(FramebufferId::new(0).is_none());
}

#[test]
fn draws_nest_three_bindings() {
    let mut ctx = Context::new(256, true);
    let p = linked(&mut ctx, 3);
    let fb = Framebuffer::new(2).unwrap();
    let vao = VertexArray::new(4).unwrap();
    fb.draw(&mut ctx, &p, &vao, DrawMode::Triangles, 0, 6).unwrap();
    let calls = ctx.take_calls();
    assert_eq!(calls.len(), 7);
    assert!(matches!(calls[0], GlCall::Bind { point: BindingPoint::Program, id: 3 }));
    assert!(matches!(calls[1], GlCall::Bind { point: BindingPoint::Framebuffer, id: 2 }));
    assert!(matches!(calls[2], GlCall::Bind { point: BindingPoint::VertexArray, id: 4 }));
    assert!(matches!(calls[3], GlCall::DrawArrays { first: 0, count: 6, .. }));
    assert!(matches!(calls[6], GlCall::Bind { point: BindingPoint::Program, id: 0 }));
    assert!(matches!(fb.draw(&mut ctx, &p, &vao, DrawMode::Triangles, 4, 2), Err(Error::OutOfBounds)));
    assert!(matches!(
        fb.draw_elements(&mut ctx, &p, &vao, DrawMode::Triangles, 0, 3),
        Err(Error::MissingElementBuffer)
    ));
}

#[test]
fn indexed_draw_uses_element_type() {
    let mut ctx = Context::new(256, true);
    let p = linked(&mut ctx, 3);
    let fb = Framebuffer::new(2).unwrap();
    let mut vao = VertexArray::new(4).unwrap();
    let elements = Buffer::new(&ctx, 9, BufferKind::ElementArray, 2).unwrap();
    vao.with_element_buffer(&mut ctx, &elements, IndexType::U16).unwrap();
    assert_eq!(vao.element(), Some(IndexType::U16));
    ctx.take_calls();
    fb.draw_elements(&mut ctx, &p, &vao, DrawMode::Lines, 2, 8).unwrap();
    let calls = ctx.take_calls();
    assert!(matches!(calls[3], GlCall::DrawElements { count: 6, index_type: IndexType::U16, byte_offset: 4, .. }));
    let wrong = Buffer::new(&ctx, 10, BufferKind::Array, 2).unwrap();
    assert!(matches!(vao.with_element_buffer(&mut ctx, &wrong, IndexType::U16), Err(Error::WrongBufferKind)));
}

#[test]
fn interleaved_position_uv_layout() {
    let fields = vec![
        VertexField { attrib_type: AttribType::F32, components: 3, normalized: false },
        VertexField { attrib_type: AttribType::F32, components: 2, normalized: false },
    ];
    let (descs, stride) = vertex_layout(&fields);
    assert_eq!(stride, 20);
    assert_eq!(descs.len(), 2);
    assert_eq!(descs[0].offset, 0);
    assert_eq!(descs[1].offset, 12);
    assert_eq!(descs[1].num_components, 2);
    let mut ctx = Context::new(256, true);
    let mut vao = VertexArray::new(4).unwrap();
    let vbo = Buffer::new(&ctx, 8, BufferKind::Array, 20).unwrap();
    vao.with_vertex_buffer(&mut ctx, &vbo, &fields).unwrap();
    let calls = ctx.take_calls();
    assert!(matches!(calls[2], GlCall::VertexAttribPointer { index: 0, components: 3, stride: 20, offset: 0, .. }));
    assert!(matches!(calls[3], GlCall::VertexAttribPointer { index: 1, components: 2, stride: 20, offset: 12, .. }));
    assert!(matches!(calls[4], GlCall::EnableVertexAttribArray { index: 0 }));
    assert!(matches!(calls[5], GlCall::EnableVertexAttribArray { index: 1 }));
    let short = Buffer::new(&ctx, 9, BufferKind::Array, 12).unwrap();
    assert!(matches!(vao.with_vertex_buffer(&mut ctx, &short, &fields), Err(Error::DataLength { expected: 20, actual: 12 })));
}

#[test]
fn vertex_desc_builders() {
    let f = VertexField { attrib_type: AttribType::U8, components: 4, normalized: false };
    let d = VertexDesc::from_gl_type(f, 8);
    assert_eq!(d.offset, 8);
    assert!(!d.normalized);
    assert!(d.normalized().normalized);
    assert!(VaoId::new(0).is_none());
    assert_eq!(VaoId::new(3).unwrap().get(), 3);
    assert!(ShaderId::new(0).is_none());
}

#[test]
fn ranges_are_clamped_to_limits() {
    assert_eq!(normalize_range(RangeBound::Unbounded, RangeBound::Unbounded, 0, 10), (0, 10));
    assert_eq!(normalize_range(RangeBound::Included(2), RangeBound::Included(4), 0, 10), (2, 5));
    assert_eq!(normalize_range(RangeBound::Excluded(2), RangeBound::Excluded(40), 0, 10), (3, 10));
    assert_eq!(normalize_range(RangeBound::Included(-5), RangeBound::Excluded(3), 0, 10), (0, 3));
}

#[test]
fn attributes_are_listed_in_order() {
    let mut ctx = Context::new(256, true);
    let p = linked(&mut ctx, 3);
    let attrs = p.get_attributes(&vec![(1, 0x8B51), (1, 0x8B50)]);
    assert_eq!(attrs.len(), 2);
    assert_eq!(attrs[1].index, 1);
    assert_eq!(attrs[1].program.get(), 3);
    assert!(attrs[0].is(0x8B51));
    assert!(!attrs[1].is(0x8B51));
}

#[test]
fn release_of_active_program_queues_restore() {
    let mut ctx = Context::new(256, true);
    let p = linked(&mut ctx, 3);
    let q = linked(&mut ctx, 4);
    let outer = p.activate(&mut ctx);
    let inner = q.activate(&mut ctx);
    ctx.take_calls();
    inner.release(&mut ctx);
    let calls = ctx.take_calls();
    assert_eq!(calls.len(), 1);
    assert!(matches!(calls[0], GlCall::Bind { point: BindingPoint::Program, id: 3 }));
    outer.release(&mut ctx);
    assert!(matches!(ctx.take_calls()[0], GlCall::Bind { point: BindingPoint::Program, id: 0 }));
}

#[test]
fn draw_restores_previous_bindings() {
    let mut ctx = Context::new(256, true);
    let p = linked(&mut ctx, 3);
    let fb = Framebuffer::new(2).unwrap();
    let vao = VertexArray::new(4).unwrap();
    let outer = Program::new(8).unwrap().link(&mut ctx, true, String::new()).unwrap().activate(&mut ctx);
    fb.draw(&mut ctx, &p, &vao, DrawMode::Points, 0, 1).unwrap();
    assert_eq!(ctx.current(BindingPoint::Program), Some(8));
    assert_eq!(ctx.current(BindingPoint::Framebuffer), None);
    assert_eq!(ctx.current(BindingPoint::VertexArray), None);
    outer.release(&mut ctx);
}
