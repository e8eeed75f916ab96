use violette::base::{BindingPoint, Context, ResourceExt};
use violette::buffer::{Buffer, BufferKind};
use violette::calls::GlCall;
use violette::program::{current_program, Program};
use violette::shader::{Shader, ShaderStage};
use violette::utils::{gl_error_guard, Error, GlError};

fn array_buffer(ctx: &Context, handle: u32) -> Buffer {
    Buffer::new(ctx, handle, BufferKind::Array, 4).unwrap()
}

#[test]
fn clean_context_has_nothing_bound() {
    let ctx = Context::new(256, true);
    assert_eq!(ctx.current(BindingPoint::Buffer(BufferKind::Array)), None);
    assert_eq!(ctx.current(BindingPoint::Program), None);
    assert_eq!(ctx.current(BindingPoint::Framebuffer), None);
    assert_eq!(ctx.alignment(), 256);
}

#[test]
fn bind_then_release_restores_previous() {
    let mut ctx = Context::new(256, true);
    let a = array_buffer(&ctx, 7);
    let point = BindingPoint::Buffer(BufferKind::Array);
    let g = ctx.bind(&a);
    assert_eq!(ctx.current(point), Some(7));
    assert_eq!(g.previous, None);
    ctx.release(g);
    assert_eq!(ctx.current(point), None);
    let calls = ctx.take_calls();
    assert_eq!(calls.len(), 2);
    assert!(matches!(calls[0], GlCall::Bind { id: 7, .. }));
    assert!(matches!(calls[1], GlCall::Bind { id: 0, .. }));
}

#[test]
fn nested_binding_restores_outer() {
    let mut ctx = Context::new(256, true);
    let a = array_buffer(&ctx, 3);
    let b = array_buffer(&ctx, 9);
    let point = BindingPoint::Buffer(BufferKind::Array);
    let ga = ctx.bind(&a);
    let gb = ctx.bind(&b);
    assert_eq!(ctx.current(point), Some(9));
    ctx.release(gb);
    assert_eq!(ctx.current(point), Some(3));
    ctx.release(ga);
    assert_eq!(ctx.current(point), None);
}

#[test]
fn binding_one_point_leaves_others() {
    let mut ctx = Context::new(256, true);
    let a = array_buffer(&ctx, 3);
    let g = ctx.bind(&a);
    assert_eq!(ctx.current(BindingPoint::Buffer(BufferKind::Uniform)), None);
    assert_eq!(ctx.current(BindingPoint::VertexArray), None);
    ctx.release(g);
}

#[test]
fn no_restore_mode_keeps_binding() {
    let mut ctx = Context::new(256, false);
    let a = array_buffer(&ctx, 5);
    let g = ctx.bind(&a);
    ctx.release(g);
    assert_eq!(ctx.current(BindingPoint::Buffer(BufferKind::Array)), Some(5));
    assert_eq!(ctx.take_calls().len(), 1);
}

#[test]
fn with_binding_wraps_calls() {
    let mut ctx = Context::new(256, true);
    let a = array_buffer(&ctx, 4);
    a.with_binding(&mut ctx, vec![GlCall::Unmap { kind: BufferKind::Array }]);
    let calls = ctx.take_calls();
    assert_eq!(calls.len(), 3);
    assert!(matches!(calls[0], GlCall::Bind { id: 4, .. }));
    assert!(matches!(calls[1], GlCall::Unmap { .. }));
    assert!(matches!(calls[2], GlCall::Bind { id: 0, .. }));
    assert_eq!(ctx.current(BindingPoint::Buffer(BufferKind::Array)), None);
}

#[test]
fn active_program_is_current_until_released() {
    let mut ctx = Context::new(256, true);
    let program = Program::new(11).unwrap().link(&mut ctx, true, String::new()).unwrap();
    let active = program.activate(&mut ctx);
    assert_eq!(current_program(&ctx), Some(11));
    active.release(&mut ctx);
    assert_eq!(current_program(&ctx), None);
}

#[test]
fn error_guard_passes_value_or_error() {
    assert!(matches!(gl_error_guard(5u32, None), Ok(5)));
    assert!(matches!(
        gl_error_guard(5u32, Some(GlError::InvalidEnum)),
        Err(Error::Driver(GlError::InvalidEnum))
    ));
    assert!(GlError::ContextLost.is_fatal());
    assert!(!GlError::OutOfMemory.is_fatal());
}

#[test]
fn shader_compile_request_is_queued() {
    let mut ctx = Context::new(256, true);
    Shader::request_compile(&mut ctx, 2, String::from("void main() {}"));
    let calls = ctx.take_calls();
    assert!(matches!(&calls[0], GlCall::CompileShader { id: 2, source } if source == "void main() {}"));
    let s = Shader::new(ShaderStage::Vertex, 2, true, String::new()).unwrap();
    assert_eq!(s.id.get(), 2);
}

#[test]
fn multiple_sources_are_numbered() {
    let mut ctx = Context::new(256, true);
    let sources = vec![String::from("void a() {}"), String::from("void main() {}")];
    Shader::request_compile_multiple(&mut ctx, 5, &sources);
    let calls = ctx.take_calls();
    match &calls[0] {
        GlCall::CompileShader { id, source } => {
            assert_eq!(*id, 5);
            assert_eq!(source, "#version 330 core\n#line 1 0\nvoid a() {}#line 1 1\nvoid main() {}");
        }
        other => panic!("unexpected call {:?}", other),
    }
    let many: Vec<String> = (0..12).map(|_| String::new()).collect();
    Shader::request_compile_multiple(&mut ctx, 6, &many);
    match &ctx.take_calls()[0] {
        GlCall::CompileShader { source, .. } => assert!(source.ends_with("#line 1 10\n#line 1 11\n")),
        other => panic!("unexpected call {:?}", other),
    }
}
