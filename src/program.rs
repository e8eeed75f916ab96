use vstd::prelude::*;

use crate::base::{release_calls, scoped_calls, scoped_in, BindGuard, BindingPoint, Context, Resource};
use crate::buffer::{BufferKind, BufferSlice};
use crate::calls::GlCall;
use crate::shader::{Shader, ShaderId};
use crate::utils::Error;

verus! {

/// Element type of a uniform value.
#[derive(Debug, Clone, Copy, PartialEq, Eq, Structural)]
pub enum ScalarKind {
    Int,
    Uint,
    Float,
    Double,
}

/// Shape of a uniform value: a scalar, a vector, or a square matrix.
#[derive(Debug, Clone, Copy, PartialEq, Eq, Structural)]
pub enum UniformShape {
    Scalar,
    Vec2,
    Vec3,
    Vec4,
    Mat2,
    Mat3,
    Mat4,
}

impl UniformShape {
    pub open spec fn spec_components(self) -> nat {
        match self {
            UniformShape::Scalar => 1,
            UniformShape::Vec2 => 2,
            UniformShape::Vec3 => 3,
            UniformShape::Vec4 => 4,
            UniformShape::Mat2 => 4,
            UniformShape::Mat3 => 9,
            UniformShape::Mat4 => 16,
        }
    }

    pub open spec fn spec_is_matrix(self) -> bool {
        self == UniformShape::Mat2 || self == UniformShape::Mat3 || self == UniformShape::Mat4
    }

    /// Number of scalar components.
    pub fn components(&self) -> (r: usize)
        ensures
            r == self.spec_components(),
    {
        match self {
            UniformShape::Scalar => 1,
            UniformShape::Vec2 => 2,
            UniformShape::Vec3 => 3,
            UniformShape::Vec4 => 4,
            UniformShape::Mat2 => 4,
            UniformShape::Mat3 => 9,
            UniformShape::Mat4 => 16,
        }
    }

    pub fn is_matrix(&self) -> (r: bool)
        ensures
            r == self.spec_is_matrix(),
    {
        match self {
            UniformShape::Mat2 | UniformShape::Mat3 | UniformShape::Mat4 => true,
            _ => false,
        }
    }
}

/// A value to write into a uniform. Its kind and shape select the driver's setter; each
/// component is held as its bit pattern (an `f32` in the low 32 bits).
#[derive(Debug)]
pub struct UniformValue {
    kind: ScalarKind,
    shape: UniformShape,
    bits: Vec<u64>,
}

impl UniformValue {
    #[verifier::type_invariant]
    spec fn inv(self) -> bool {
        &&& self.bits@.len() == self.shape.spec_components()
        &&& self.shape.spec_is_matrix() ==> (self.kind == ScalarKind::Float || self.kind
            == ScalarKind::Double)
    }

    pub closed spec fn spec_kind(&self) -> ScalarKind {
        self.kind
    }

    pub closed spec fn spec_shape(&self) -> UniformShape {
        self.shape
    }

    pub closed spec fn spec_bits(&self) -> Seq<u64> {
        self.bits@
    }

    /// A uniform value of `kind` and `shape` with components `bits`, in column order for
    /// matrices. The driver has setters for scalars and vectors of every kind, and for
    /// matrices of floats and doubles only.
    pub fn new(kind: ScalarKind, shape: UniformShape, bits: Vec<u64>) -> (r: Result<UniformValue, Error>)
        ensures
            r is Ok <==> bits@.len() == shape.spec_components() && (shape.spec_is_matrix() ==> (kind
                == ScalarKind::Float || kind == ScalarKind::Double)),
            shape.spec_is_matrix() && (kind == ScalarKind::Int || kind == ScalarKind::Uint) ==> r matches Err(
                Error::UnsupportedUniform,
            ),
            r matches Ok(v) ==> v.spec_kind() == kind && v.spec_shape() == shape && v.spec_bits() == bits@,
    {
        if shape.is_matrix() && (kind == ScalarKind::Int || kind == ScalarKind::Uint) {
            return Err(Error::UnsupportedUniform);
        }
        let n = shape.components();
        if bits.len() != n {
            return Err(Error::DataLength { expected: n, actual: bits.len() });
        }
        Ok(UniformValue { kind, shape, bits })
    }

    pub fn kind(&self) -> (r: ScalarKind)
        ensures
            r == self.spec_kind(),
    {
        self.kind
    }

    pub fn shape(&self) -> (r: UniformShape)
        ensures
            r == self.spec_shape(),
    {
        self.shape
    }

    pub fn bits(&self) -> (r: &[u64])
        ensures
            r@ == self.spec_bits(),
    {
        self.bits.as_slice()
    }
}

/// Identifier of a program object. Never `0`.
#[derive(Debug, Clone, Copy, PartialEq, Eq)]
pub struct ProgramId {
    id: u32,
}

impl View for ProgramId {
    type V = u32;

    closed spec fn view(&self) -> u32 {
        self.id
    }
}

impl ProgramId {
    #[verifier::type_invariant]
    spec fn inv(self) -> bool {
        self.id != 0
    }

    /// The identifier for a driver handle; `None` for the reserved handle `0`.
    pub fn new(id: u32) -> (r: Option<ProgramId>)
        ensures
            r is Some <==> id != 0,
            r matches Some(p) ==> p@ == id,
    {
        if id == 0 {
            None
        } else {
            Some(ProgramId { id })
        }
    }

    /// The raw driver handle.
    pub fn get(&self) -> (r: u32)
        ensures
            r == self@,
            r != 0,
    {
        proof {
            use_type_invariant(self);
        }
        self.id
    }

    /// Whether two identifiers name the same program.
    pub fn same(&self, other: &ProgramId) -> (r: bool)
        ensures
            r == (self@ == other@),
    {
        self.id == other.id
    }
}

/// Lifecycle phase of a program that shaders can still be attached to.
#[derive(Debug)]
pub struct Unlinked;

/// Lifecycle phase of a linked program: it can be used and its uniforms set.
#[derive(Debug)]
pub struct Linked;

/// A program object in lifecycle phase `Status`.
#[derive(Debug)]
pub struct Program<Status> {
    status: Status,
    id: ProgramId,
}

impl<Status> Program<Status> {
    /// The program's raw driver handle.
    pub closed spec fn spec_handle(&self) -> u32 {
        self.id@
    }

    pub fn program_id(&self) -> (r: ProgramId)
        ensures
            r@ == self.spec_handle(),
    {
        self.id
    }
}

/// The calls that attach `shaders` to `program`, link it, and give the shaders back to the
/// driver, which keeps them while they are attached.
pub open spec fn link_calls(program: u32, shaders: Seq<u32>) -> Seq<GlCall> {
    Seq::new(shaders.len(), |i: int| GlCall::AttachShader { program, shader: shaders[i] }) + seq![
        GlCall::LinkProgram { program },
    ] + Seq::new(shaders.len(), |i: int| GlCall::DeleteShader { id: shaders[i] })
}

/// The calls that give compiled shaders and, when there is one, the program back to the driver.
pub open spec fn discard_calls(program: u32, shaders: Seq<u32>) -> Seq<GlCall> {
    Seq::new(shaders.len(), |i: int| GlCall::DeleteShader { id: shaders[i] }) + if program == 0 {
        Seq::<GlCall>::empty()
    } else {
        seq![GlCall::DeleteProgram { id: program }]
    }
}

/// The first compile failure among the stages, in the order vertex, fragment, geometry.
pub open spec fn first_failure(
    vertex: Result<Shader, Error>,
    fragment: Option<Result<Shader, Error>>,
    geometry: Option<Result<Shader, Error>>,
) -> Option<Error> {
    match vertex {
        Err(e) => Some(e),
        Ok(_) => match fragment {
            Some(Err(e)) => Some(e),
            _ => match geometry {
                Some(Err(e)) => Some(e),
                _ => None,
            },
        },
    }
}

/// Handles of the stages that compiled, in the order vertex, fragment, geometry.
pub open spec fn compiled_ids(
    vertex: Result<Shader, Error>,
    fragment: Option<Result<Shader, Error>>,
    geometry: Option<Result<Shader, Error>>,
) -> Seq<u32> {
    let v = match vertex {
        Ok(s) => seq![s.id@],
        Err(_) => Seq::empty(),
    };
    let f = match fragment {
        Some(Ok(s)) => seq![s.id@],
        _ => Seq::empty(),
    };
    let g = match geometry {
        Some(Ok(s)) => seq![s.id@],
        _ => Seq::empty(),
    };
    v + f + g
}

/// Whether a queued call links a program.
pub open spec fn is_link(c: GlCall) -> bool {
    c is LinkProgram
}

impl Program<Unlinked> {
    /// An empty program on the object `handle` that the driver created.
    pub fn new(handle: u32) -> (r: Result<Program<Unlinked>, Error>)
        ensures
            r is Ok <==> handle != 0,
            r is Err ==> r matches Err(Error::NullHandle),
            r matches Ok(p) ==> p.spec_handle() == handle,
    {
        match ProgramId::new(handle) {
            Some(id) => Ok(Program { status: Unlinked, id }),
            None => Err(Error::NullHandle),
        }
    }

    /// Attaches a compiled shader.
    pub fn add_shader(&mut self, ctx: &mut Context, id: ShaderId)
        ensures
            final(self).spec_handle() == old(self).spec_handle(),
            final(ctx).slots() == old(ctx).slots(),
            final(ctx).spec_alignment() == old(ctx).spec_alignment(),
            final(ctx).restores() == old(ctx).restores(),
            final(ctx).wf() == old(ctx).wf(),
            final(ctx).pending() == old(ctx).pending().push(
                GlCall::AttachShader { program: old(self).spec_handle(), shader: id@ },
            ),
    {
        let program = self.id.get();
        let shader = id.get();
        ctx.push(GlCall::AttachShader { program, shader });
    }

    /// Attaches a compiled shader, builder style.
    pub fn with_shader(self, ctx: &mut Context, id: ShaderId) -> (r: Program<Unlinked>)
        ensures
            r.spec_handle() == self.spec_handle(),
            final(ctx).slots() == old(ctx).slots(),
            final(ctx).spec_alignment() == old(ctx).spec_alignment(),
            final(ctx).restores() == old(ctx).restores(),
            final(ctx).wf() == old(ctx).wf(),
            final(ctx).pending() == old(ctx).pending().push(
                GlCall::AttachShader { program: self.spec_handle(), shader: id@ },
            ),
    {
        let mut p = self;
        p.add_shader(ctx, id);
        p
    }

    /// Asks the driver to link the program; [`Program::link`] takes the outcome.
    pub fn request_link(&self, ctx: &mut Context)
        ensures
            final(ctx).slots() == old(ctx).slots(),
            final(ctx).spec_alignment() == old(ctx).spec_alignment(),
            final(ctx).restores() == old(ctx).restores(),
            final(ctx).wf() == old(ctx).wf(),
            final(ctx).pending() == old(ctx).pending().push(GlCall::LinkProgram { program: self.spec_handle() }),
    {
        let program = self.id.get();
        ctx.push(GlCall::LinkProgram { program });
    }

    /// Ends linking, given the driver's link status and info log. A linked program leaves the
    /// unlinked phase for good; a failed one is given back to the driver and its log, verbatim,
    /// is the error.
    pub fn link(self, ctx: &mut Context, success: bool, log: String) -> (r: Result<Program<Linked>, Error>)
        ensures
            final(ctx).slots() == old(ctx).slots(),
            final(ctx).spec_alignment() == old(ctx).spec_alignment(),
            final(ctx).restores() == old(ctx).restores(),
            final(ctx).wf() == old(ctx).wf(),
            r is Ok <==> success,
            r matches Ok(p) ==> p.spec_handle() == self.spec_handle() && final(ctx).pending() == old(ctx).pending(),
            !success ==> (r matches Err(Error::Link { log: l }) && l@ == log@)
                && final(ctx).pending() == old(ctx).pending().push(GlCall::DeleteProgram { id: self.spec_handle() }),
    {
        if success {
            Ok(Program { status: Linked, id: self.id })
        } else {
            let id = self.id.get();
            ctx.push(GlCall::DeleteProgram { id });
            Err(Error::Link { log })
        }
    }
}

impl<Status> Program<Status> {
    /// Ends validation, given the driver's validation status and info log.
    pub fn validate(&self, success: bool, log: String) -> (r: Result<(), Error>)
        ensures
            r is Ok <==> success,
            !success ==> (r matches Err(Error::Validate { log: l }) && l@ == log@),
    {
        if success {
            Ok(())
        } else {
            Err(Error::Validate { log })
        }
    }

    /// Deletes the program object.
    pub fn delete(self, ctx: &mut Context)
        ensures
            final(ctx).slots() == old(ctx).slots(),
            final(ctx).spec_alignment() == old(ctx).spec_alignment(),
            final(ctx).restores() == old(ctx).restores(),
            final(ctx).wf() == old(ctx).wf(),
            final(ctx).pending() == old(ctx).pending().push(GlCall::DeleteProgram { id: self.spec_handle() }),
    {
        let id = self.id.get();
        ctx.push(GlCall::DeleteProgram { id });
    }
}

/// Queues the deletion of each shader in `ids`.
fn push_shader_deletes(ctx: &mut Context, ids: &Vec<u32>)
    ensures
        final(ctx).slots() == old(ctx).slots(),
        final(ctx).spec_alignment() == old(ctx).spec_alignment(),
        final(ctx).restores() == old(ctx).restores(),
        final(ctx).wf() == old(ctx).wf(),
        final(ctx).pending() == old(ctx).pending() + Seq::new(
            ids@.len(),
            |i: int| GlCall::DeleteShader { id: ids@[i] },
        ),
{
    let mut i: usize = 0;
    while i < ids.len()
        invariant
            i <= ids@.len(),
            ctx.slots() == old(ctx).slots(),
            ctx.spec_alignment() == old(ctx).spec_alignment(),
            ctx.restores() == old(ctx).restores(),
            ctx.wf() == old(ctx).wf(),
            ctx.pending() == old(ctx).pending() + Seq::new(
                i as nat,
                |j: int| GlCall::DeleteShader { id: ids@[j] },
            ),
        decreases ids.len() - i,
    {
        ctx.push(GlCall::DeleteShader { id: ids[i] });
        i = i + 1;
        assert(ctx.pending() =~= old(ctx).pending() + Seq::new(
            i as nat,
            |j: int| GlCall::DeleteShader { id: ids@[j] },
        ));
    }
}

/// Queues the attachment of each shader in `ids` to `program`.
fn push_attaches(ctx: &mut Context, program: u32, ids: &Vec<u32>)
    ensures
        final(ctx).slots() == old(ctx).slots(),
        final(ctx).spec_alignment() == old(ctx).spec_alignment(),
        final(ctx).restores() == old(ctx).restores(),
        final(ctx).wf() == old(ctx).wf(),
        final(ctx).pending() == old(ctx).pending() + Seq::new(
            ids@.len(),
            |i: int| GlCall::AttachShader { program, shader: ids@[i] },
        ),
{
    let mut i: usize = 0;
    while i < ids.len()
        invariant
            i <= ids@.len(),
            ctx.slots() == old(ctx).slots(),
            ctx.spec_alignment() == old(ctx).spec_alignment(),
            ctx.restores() == old(ctx).restores(),
            ctx.wf() == old(ctx).wf(),
            ctx.pending() == old(ctx).pending() + Seq::new(
                i as nat,
                |j: int| GlCall::AttachShader { program, shader: ids@[j] },
            ),
        decreases ids.len() - i,
    {
        ctx.push(GlCall::AttachShader { program, shader: ids[i] });
        i = i + 1;
        assert(ctx.pending() =~= old(ctx).pending() + Seq::new(
            i as nat,
            |j: int| GlCall::AttachShader { program, shader: ids@[j] },
        ));
    }
}

/// A failed compilation never reaches the link stage: none of the calls that discard the
/// compiled parts links a program.
pub proof fn lemma_failed_compile_never_links(program: u32, shaders: Seq<u32>)
    ensures
        forall|i: int|
            0 <= i < discard_calls(program, shaders).len() ==> !is_link(
                #[trigger] discard_calls(program, shaders)[i],
            ),
{
    assert forall|i: int| 0 <= i < discard_calls(program, shaders).len() implies !is_link(
        #[trigger] discard_calls(program, shaders)[i],
    ) by {
        if i < shaders.len() {
        } else {
        }
    }
}

impl Program<Unlinked> {
    /// A program on the object `handle` with `shaders` attached and its linking requested;
    /// [`Program::link`] takes the outcome.
    pub fn from_shaders(ctx: &mut Context, handle: u32, shaders: &Vec<ShaderId>) -> (r: Result<Program<Unlinked>, Error>)
        ensures
            final(ctx).slots() == old(ctx).slots(),
            final(ctx).spec_alignment() == old(ctx).spec_alignment(),
            final(ctx).restores() == old(ctx).restores(),
            final(ctx).wf() == old(ctx).wf(),
            r is Ok <==> handle != 0,
            r is Err ==> (r matches Err(Error::NullHandle) && *final(ctx) == *old(ctx)),
            r matches Ok(p) ==> p.spec_handle() == handle && final(ctx).pending() == old(ctx).pending()
                + Seq::new(shaders@.len(), |i: int| GlCall::AttachShader { program: handle, shader: shaders@[i]@ })
                + seq![GlCall::LinkProgram { program: handle }],
    {
        let mut program = Program::new(handle)?;
        let mut i: usize = 0;
        while i < shaders.len()
            invariant
                i <= shaders@.len(),
                program.spec_handle() == handle,
                ctx.slots() == old(ctx).slots(),
                ctx.spec_alignment() == old(ctx).spec_alignment(),
                ctx.restores() == old(ctx).restores(),
                ctx.wf() == old(ctx).wf(),
                ctx.pending() == old(ctx).pending() + Seq::new(
                    i as nat,
                    |j: int| GlCall::AttachShader { program: handle, shader: shaders@[j]@ },
                ),
            decreases shaders.len() - i,
        {
            program.add_shader(ctx, shaders[i]);
            i = i + 1;
            assert(ctx.pending() =~= old(ctx).pending() + Seq::new(
                i as nat,
                |j: int| GlCall::AttachShader { program: handle, shader: shaders@[j]@ },
            ));
        }
        program.request_link(ctx);
        Ok(program)
    }

    /// Builds a program on the object `handle` from the compiled stages: a vertex stage and
    /// optional fragment and geometry stages, as [`Shader::new`] gave them. When a stage failed
    /// to compile, its error is the result and the program is never linked: the compiled
    /// stages and the program are given back to the driver. Otherwise the stages are
    /// attached, linking is requested, and the shaders are given back to the driver, which
    /// keeps them while they stay attached.
    pub fn from_sources(
        ctx: &mut Context,
        handle: u32,
        vertex: Result<Shader, Error>,
        fragment: Option<Result<Shader, Error>>,
        geometry: Option<Result<Shader, Error>>,
    ) -> (r: Result<Program<Unlinked>, Error>)
        ensures
            final(ctx).slots() == old(ctx).slots(),
            final(ctx).spec_alignment() == old(ctx).spec_alignment(),
            final(ctx).restores() == old(ctx).restores(),
            final(ctx).wf() == old(ctx).wf(),
            first_failure(vertex, fragment, geometry) matches Some(e) ==> r == Err::<Program<Unlinked>, Error>(e)
                && final(ctx).pending() == old(ctx).pending() + discard_calls(
                handle,
                compiled_ids(vertex, fragment, geometry),
            ),
            first_failure(vertex, fragment, geometry) is None && handle == 0 ==> (r matches Err(
                Error::NullHandle,
            ) && final(ctx).pending() == old(ctx).pending() + discard_calls(
                handle,
                compiled_ids(vertex, fragment, geometry),
            )),
            first_failure(vertex, fragment, geometry) is None && handle != 0 ==> (r matches Ok(p)
                && p.spec_handle() == handle) && final(ctx).pending() == old(ctx).pending() + link_calls(
                handle,
                compiled_ids(vertex, fragment, geometry),
            ),
    {
        let ghost ids = compiled_ids(vertex, fragment, geometry);
        let ghost fail = first_failure(vertex, fragment, geometry);
        let mut compiled: Vec<u32> = Vec::new();
        let mut failure: Option<Error> = None;
        match vertex {
            Ok(s) => {
                compiled.push(s.id.get());
            },
            Err(e) => {
                failure = Some(e);
            },
        }
        match fragment {
            Some(Ok(s)) => {
                compiled.push(s.id.get());
            },
            Some(Err(e)) => {
                if failure.is_none() {
                    failure = Some(e);
                }
            },
            None => {},
        }
        match geometry {
            Some(Ok(s)) => {
                compiled.push(s.id.get());
            },
            Some(Err(e)) => {
                if failure.is_none() {
                    failure = Some(e);
                }
            },
            None => {},
        }
        assert(compiled@ =~= ids);
        assert(failure == fail);
        match failure {
            Some(e) => {
                push_shader_deletes(ctx, &compiled);
                if handle != 0 {
                    ctx.push(GlCall::DeleteProgram { id: handle });
                }
                assert(ctx.pending() =~= old(ctx).pending() + discard_calls(handle, ids));
                Err(e)
            },
            None => {
                match ProgramId::new(handle) {
                    None => {
                        push_shader_deletes(ctx, &compiled);
                        assert(ctx.pending() =~= old(ctx).pending() + discard_calls(handle, ids));
                        Err(Error::NullHandle)
                    },
                    Some(id) => {
                        push_attaches(ctx, handle, &compiled);
                        ctx.push(GlCall::LinkProgram { program: handle });
                        push_shader_deletes(ctx, &compiled);
                        assert(ctx.pending() =~= old(ctx).pending() + link_calls(handle, ids));
                        Ok(Program { status: Unlinked, id })
                    },
                }
            },
        }
    }
}

/// Location of a uniform in one specific program.
#[derive(Debug, Clone, Copy, PartialEq, Eq)]
pub struct UniformLocation {
    program: ProgramId,
    location: u32,
}

impl UniformLocation {
    pub closed spec fn spec_program(&self) -> u32 {
        self.program@
    }

    pub closed spec fn spec_location(&self) -> u32 {
        self.location
    }

    /// Whether the location belongs to `program`.
    pub fn is_in_program(&self, program: &Program<Linked>) -> (r: bool)
        ensures
            r == (self.spec_program() == program.spec_handle()),
    {
        self.program.same(&program.id)
    }

    pub fn location(&self) -> (r: u32)
        ensures
            r == self.spec_location(),
    {
        self.location
    }
}

/// Location of a vertex attribute in one specific program.
#[derive(Debug, Clone, Copy, PartialEq, Eq)]
pub struct AttributeLocation {
    program: ProgramId,
    index: u32,
}

impl AttributeLocation {
    pub closed spec fn spec_program(&self) -> u32 {
        self.program@
    }

    pub closed spec fn spec_index(&self) -> u32 {
        self.index
    }

    /// Whether the attribute belongs to `program`.
    pub fn is_in_program(&self, program: &Program<Linked>) -> (r: bool)
        ensures
            r == (self.spec_program() == program.spec_handle()),
    {
        self.program.same(&program.id)
    }

    pub fn index(&self) -> (r: u32)
        ensures
            r == self.spec_index(),
    {
        self.index
    }
}

/// Description of an active vertex attribute, as the driver reports it.
#[derive(Debug, Clone, Copy, PartialEq, Eq)]
pub struct AttributeDesc {
    pub program: ProgramId,
    pub index: u32,
    /// Number of elements, for array attributes.
    pub gl_size: i32,
    pub raw_type: u32,
}

impl AttributeDesc {
    /// The description of attribute `index` of `program` from the driver's answers for its
    /// size and type.
    pub fn for_attribute(program: ProgramId, index: u32, gl_size: i32, raw_type: u32) -> (r: AttributeDesc)
        ensures
            r == (AttributeDesc { program, index, gl_size, raw_type }),
    {
        AttributeDesc { program, index, gl_size, raw_type }
    }

    /// Whether the attribute's driver type code is `gl_type`.
    pub fn is(&self, gl_type: u32) -> (r: bool)
        ensures
            r == (self.raw_type == gl_type),
    {
        self.raw_type == gl_type
    }
}

/// Uniform block of one specific program, and the block binding it is to be connected to.
#[derive(Debug, Clone, Copy, PartialEq, Eq)]
pub struct UniformBlockIndex {
    program: ProgramId,
    binding: u32,
    block_index: u32,
}

impl UniformBlockIndex {
    pub closed spec fn spec_program(&self) -> u32 {
        self.program@
    }

    pub closed spec fn spec_binding(&self) -> u32 {
        self.binding
    }

    pub closed spec fn spec_block_index(&self) -> u32 {
        self.block_index
    }
}

/// Description of an active uniform, as the driver reports it.
#[derive(Debug, Clone, Copy, PartialEq, Eq)]
pub struct UniformDesc {
    pub location: u32,
    pub block_index: u32,
    pub program: ProgramId,
    pub name_length: usize,
    pub raw_type: u32,
}

impl UniformDesc {
    pub open spec fn spec_program(&self) -> u32 {
        self.program@
    }

    pub open spec fn spec_name_length(&self) -> nat {
        self.name_length as nat
    }

    pub open spec fn spec_raw_type(&self) -> u32 {
        self.raw_type
    }

    /// The description of a uniform of `program` from the driver's answers for its name
    /// length, type, block index and location, in that order.
    pub fn for_uniform_at_location(program: ProgramId, values: [i32; 4]) -> (r: UniformDesc)
        ensures
            r.spec_program() == program@,
            r.spec_name_length() == (if values@[0] < 0 { 0 } else { values@[0] as nat }),
            r.spec_raw_type() == values@[1] as u32,
            r.block_index == values@[2] as u32,
            r.location == values@[3] as u32,
    {
        let n = values[0];
        UniformDesc {
            program,
            location: values[3] as u32,
            name_length: if n < 0 {
                0
            } else {
                n as usize
            },
            block_index: values[2] as u32,
            raw_type: values[1] as u32,
        }
    }

    /// Bytes of the uniform's name, terminator included.
    pub fn name_length(&self) -> (r: usize)
        ensures
            r == self.spec_name_length(),
    {
        self.name_length
    }

    /// Whether the uniform's driver type code is `gl_type`.
    pub fn is_type(&self, gl_type: u32) -> (r: bool)
        ensures
            r == (self.spec_raw_type() == gl_type),
    {
        self.raw_type == gl_type
    }
}

impl Resource for Program<Linked> {
    closed spec fn spec_id(&self) -> u32 {
        self.id@
    }

    closed spec fn spec_point(&self) -> BindingPoint {
        BindingPoint::Program
    }

    fn id(&self) -> (r: u32) {
        self.id.get()
    }

    fn binding_point(&self) -> (r: BindingPoint) {
        BindingPoint::Program
    }
}

impl Program<Linked> {
    /// The uniform whose location the driver gave as `location` for a name; a negative
    /// location means the program has no such uniform.
    pub fn uniform(&self, location: i32) -> (r: Option<UniformLocation>)
        ensures
            r is Some <==> location >= 0,
            r matches Some(u) ==> u.spec_program() == self.spec_handle() && u.spec_location()
                == location as u32,
    {
        if location >= 0 {
            Some(UniformLocation { program: self.id, location: location as u32 })
        } else {
            None
        }
    }

    /// The attribute whose location the driver gave as `location` for a name; a negative
    /// location means the program has no such attribute.
    pub fn attribute(&self, location: i32) -> (r: Option<AttributeLocation>)
        ensures
            r is Some <==> location >= 0,
            r matches Some(a) ==> a.spec_program() == self.spec_handle() && a.spec_index()
                == location as u32,
    {
        if location >= 0 {
            Some(AttributeLocation { program: self.id, index: location as u32 })
        } else {
            None
        }
    }

    /// The descriptions of the program's active uniforms, from the driver's answers for each
    /// of them in order (see [`UniformDesc::for_uniform_at_location`]).
    pub fn get_uniforms(&self, answers: &Vec<[i32; 4]>) -> (r: Vec<UniformDesc>)
        ensures
            r@.len() == answers@.len(),
            forall|i: int|
                0 <= i < r@.len() ==> (#[trigger] r@[i]).spec_program() == self.spec_handle()
                    && r@[i].location == answers@[i]@[3] as u32 && r@[i].block_index == answers@[i]@[2] as u32
                    && r@[i].spec_raw_type() == answers@[i]@[1] as u32,
    {
        let mut out: Vec<UniformDesc> = Vec::new();
        let mut i: usize = 0;
        while i < answers.len()
            invariant
                i <= answers@.len(),
                out@.len() == i,
                forall|j: int|
                    0 <= j < i ==> (#[trigger] out@[j]).spec_program() == self.spec_handle()
                        && out@[j].location == answers@[j]@[3] as u32 && out@[j].block_index
                        == answers@[j]@[2] as u32 && out@[j].spec_raw_type() == answers@[j]@[1] as u32,
            decreases answers.len() - i,
        {
            out.push(UniformDesc::for_uniform_at_location(self.id, answers[i]));
            i = i + 1;
        }
        out
    }

    /// The descriptions of the program's active attributes, from the driver's answers (size,
    /// type) for attribute `0`, `1`, ... in order.
    pub fn get_attributes(&self, answers: &Vec<(i32, u32)>) -> (r: Vec<AttributeDesc>)
        requires
            answers@.len() <= u32::MAX,
        ensures
            r@.len() == answers@.len(),
            forall|i: int|
                0 <= i < r@.len() ==> (#[trigger] r@[i]).program@ == self.spec_handle() && r@[i].index
                    == i as u32 && r@[i].gl_size == answers@[i].0 && r@[i].raw_type == answers@[i].1,
    {
        let mut out: Vec<AttributeDesc> = Vec::new();
        let mut i: usize = 0;
        while i < answers.len()
            invariant
                i <= answers@.len() <= u32::MAX,
                out@.len() == i,
                forall|j: int|
                    0 <= j < i ==> #[trigger] out@[j] == (AttributeDesc {
                        program: self.id,
                        index: j as u32,
                        gl_size: answers@[j].0,
                        raw_type: answers@[j].1,
                    }),
            decreases answers.len() - i,
        {
            let (gl_size, raw_type) = answers[i];
            out.push(AttributeDesc::for_attribute(self.id, i as u32, gl_size, raw_type));
            i = i + 1;
        }
        out
    }

    /// The uniform block at `block_index` (the driver's answer for a name), to be connected
    /// to block binding `binding`.
    pub fn uniform_block(&self, block_index: u32, binding: u32) -> (r: UniformBlockIndex)
        ensures
            r.spec_program() == self.spec_handle(),
            r.spec_block_index() == block_index,
            r.spec_binding() == binding,
    {
        UniformBlockIndex { program: self.id, binding, block_index }
    }

    /// Writes `value` into the uniform at `location`, with the program bound for the call. A
    /// location of another program is refused.
    pub fn set_uniform(&self, ctx: &mut Context, location: UniformLocation, value: UniformValue) -> (r: Result<(), Error>)
        requires
            old(ctx).wf(),
        ensures
            final(ctx).wf(),
            final(ctx).spec_alignment() == old(ctx).spec_alignment(),
            final(ctx).restores() == old(ctx).restores(),
            r is Ok <==> location.spec_program() == self.spec_handle(),
            r is Err ==> *final(ctx) == *old(ctx) && (r matches Err(
                Error::ForeignLocation { location_program: lp, program: pp },
            ) && lp == location.spec_program() && pp == self.spec_handle()),
            r is Ok ==> final(ctx).slots() == scoped_in(
                old(ctx).slots(),
                BindingPoint::Program,
                self.spec_handle(),
                old(ctx).restores(),
            ),
            r is Ok ==> final(ctx).pending() == old(ctx).pending() + scoped_calls(
                BindingPoint::Program,
                self.spec_handle(),
                old(ctx).spec_current(BindingPoint::Program),
                old(ctx).restores(),
                seq![GlCall::SetUniform { location: location.spec_location(), value }],
            ),
    {
        if !location.program.same(&self.id) {
            return Err(Error::ForeignLocation {
                location_program: location.program.get(),
                program: self.id.get(),
            });
        }
        let id = self.id.get();
        ctx.run_bound(BindingPoint::Program, id, vec![GlCall::SetUniform { location: location.location, value }]);
        Ok(())
    }

    /// Connects uniform block `block` of this program to `slice` of a uniform buffer.
    pub fn bind_block(&self, ctx: &mut Context, block: UniformBlockIndex, slice: &BufferSlice) -> (r: Result<(), Error>)
        ensures
            final(ctx).slots() == old(ctx).slots(),
            final(ctx).spec_alignment() == old(ctx).spec_alignment(),
            final(ctx).restores() == old(ctx).restores(),
            final(ctx).wf() == old(ctx).wf(),
            r is Ok <==> block.spec_program() == self.spec_handle() && slice.spec_kind() == BufferKind::Uniform,
            r is Err ==> *final(ctx) == *old(ctx),
            block.spec_program() != self.spec_handle() ==> (r matches Err(
                Error::ForeignLocation { location_program: lp, program: pp },
            ) && lp == block.spec_program() && pp == self.spec_handle()),
            block.spec_program() == self.spec_handle() && slice.spec_kind() != BufferKind::Uniform ==> r matches Err(
                Error::WrongBufferKind,
            ),
            r is Ok ==> final(ctx).pending() == old(ctx).pending() + seq![
                GlCall::BindBufferRange {
                    binding: block.spec_binding(),
                    buffer: slice.spec_id(),
                    offset: slice.spec_offset() as usize,
                    size: slice.spec_size() as usize,
                },
                GlCall::UniformBlockBinding {
                    program: self.spec_handle(),
                    block_index: block.spec_block_index(),
                    binding: block.spec_binding(),
                },
            ],
    {
        if !block.program.same(&self.id) {
            return Err(Error::ForeignLocation { location_program: block.program.get(), program: self.id.get() });
        }
        if slice.kind() != BufferKind::Uniform {
            return Err(Error::WrongBufferKind);
        }
        ctx.push(GlCall::BindBufferRange {
            binding: block.binding,
            buffer: slice.buffer_id(),
            offset: slice.offset(),
            size: slice.size(),
        });
        ctx.push(GlCall::UniformBlockBinding {
            program: self.id.get(),
            block_index: block.block_index,
            binding: block.binding,
        });
        Ok(())
    }

    /// Makes the program current until [`ActiveProgram::release`].
    pub fn activate(&self, ctx: &mut Context) -> (r: ActiveProgram)
        requires
            old(ctx).wf(),
        ensures
            final(ctx).wf(),
            final(ctx).spec_current(BindingPoint::Program) == Some(self.spec_handle()),
            final(ctx).slots() == crate::base::bound_in(old(ctx).slots(), BindingPoint::Program, self.spec_handle()),
            final(ctx).spec_alignment() == old(ctx).spec_alignment(),
            final(ctx).restores() == old(ctx).restores(),
            final(ctx).pending() == old(ctx).pending().push(
                GlCall::Bind { point: BindingPoint::Program, id: self.spec_handle() },
            ),
            r.spec_program() == self.spec_handle(),
            r.spec_guard().previous == old(ctx).spec_current(BindingPoint::Program),
            r.spec_guard().point == BindingPoint::Program,
            r.spec_guard().bound == self.spec_handle(),
    {
        proof {
            use_type_invariant(&self.id);
            old(ctx).lemma_wf();
            crate::base::lemma_bind_release_restores(old(ctx).slots(), BindingPoint::Program, self.id@);
        }
        let guard = ctx.bind(self);
        ActiveProgram { program: self.id, guard }
    }
}

/// A program made current, for as long as this value lives.
#[derive(Debug)]
pub struct ActiveProgram {
    program: ProgramId,
    guard: BindGuard,
}

impl ActiveProgram {
    pub closed spec fn spec_program(&self) -> u32 {
        self.program@
    }

    pub closed spec fn spec_guard(&self) -> BindGuard {
        self.guard
    }

    /// The uniform whose location the driver gave as `location`; negative means none.
    pub fn uniform(&self, location: i32) -> (r: Option<UniformLocation>)
        ensures
            r is Some <==> location >= 0,
            r matches Some(u) ==> u.spec_program() == self.spec_program() && u.spec_location()
                == location as u32,
    {
        if location >= 0 {
            Some(UniformLocation { program: self.program, location: location as u32 })
        } else {
            None
        }
    }

    /// Writes `value` into the uniform at `location` of the current program.
    pub fn set(&self, ctx: &mut Context, location: UniformLocation, value: UniformValue) -> (r: Result<(), Error>)
        ensures
            final(ctx).slots() == old(ctx).slots(),
            final(ctx).spec_alignment() == old(ctx).spec_alignment(),
            final(ctx).restores() == old(ctx).restores(),
            final(ctx).wf() == old(ctx).wf(),
            r is Ok <==> location.spec_program() == self.spec_program(),
            r is Err ==> *final(ctx) == *old(ctx) && (r matches Err(
                Error::ForeignLocation { location_program: lp, program: pp },
            ) && lp == location.spec_program() && pp == self.spec_program()),
            r is Ok ==> final(ctx).pending() == old(ctx).pending().push(
                GlCall::SetUniform { location: location.spec_location(), value },
            ),
    {
        if !location.program.same(&self.program) {
            return Err(Error::ForeignLocation {
                location_program: location.program.get(),
                program: self.program.get(),
            });
        }
        ctx.push(GlCall::SetUniform { location: location.location, value });
        Ok(())
    }

    /// Ends the program's use, restoring the program that was current before.
    pub fn release(self, ctx: &mut Context)
        requires
            old(ctx).wf(),
        ensures
            final(ctx).wf(),
            final(ctx).slots() == crate::base::released_in(old(ctx).slots(), self.spec_guard(), old(ctx).restores()),
            final(ctx).spec_alignment() == old(ctx).spec_alignment(),
            final(ctx).restores() == old(ctx).restores(),
            final(ctx).pending() == old(ctx).pending() + release_calls(self.spec_guard(), old(ctx).restores()),
    {
        ctx.release(self.guard);
        assert(ctx.pending() =~= old(ctx).pending() + release_calls(self.guard, old(ctx).restores()));
    }
}

/// The program current on the context, if any.
pub fn current_program(ctx: &Context) -> (r: Option<u32>)
    requires
        ctx.wf(),
    ensures
        r == ctx.spec_current(BindingPoint::Program),
{
    ctx.current(BindingPoint::Program)
}

} // verus!
