use vstd::prelude::*;

use crate::base::{
    lemma_paired_binding_leaves_table, paired_slots, release_calls, scoped_calls, scoped_in, BindGuard, BindingPoint,
    Context, Resource,
};
use crate::buffer::{Buffer, BufferKind};
use crate::calls::GlCall;
use crate::utils::Error;

verus! {

/// Primitive assembled from the vertices of a draw call.
#[derive(Debug, Clone, Copy, PartialEq, Eq, Structural)]
pub enum DrawMode {
    Points,
    Triangles,
    Lines,
    LineLoop,
    LineStrip,
}

/// Type of the indices in an element buffer.
#[derive(Debug, Clone, Copy, PartialEq, Eq, Structural)]
pub enum IndexType {
    U8,
    U16,
    U32,
}

impl IndexType {
    pub open spec fn spec_size(self) -> nat {
        match self {
            IndexType::U8 => 1,
            IndexType::U16 => 2,
            IndexType::U32 => 4,
        }
    }

    /// Size of one index in bytes.
    pub fn size(&self) -> (r: usize)
        ensures
            r == self.spec_size(),
    {
        match self {
            IndexType::U8 => 1,
            IndexType::U16 => 2,
            IndexType::U32 => 4,
        }
    }
}

/// Numeric type of the components of a vertex attribute.
#[derive(Debug, Clone, Copy, PartialEq, Eq, Structural)]
pub enum AttribType {
    F32,
    F64,
    U8,
    I8,
    U16,
    I16,
    U32,
    I32,
}

impl AttribType {
    pub open spec fn spec_size(self) -> nat {
        match self {
            AttribType::U8 | AttribType::I8 => 1,
            AttribType::U16 | AttribType::I16 => 2,
            AttribType::F64 => 8,
            _ => 4,
        }
    }

    /// Size of one component in bytes.
    pub fn size(&self) -> (r: usize)
        ensures
            r == self.spec_size(),
    {
        match self {
            AttribType::U8 | AttribType::I8 => 1,
            AttribType::U16 | AttribType::I16 => 2,
            AttribType::F64 => 8,
            _ => 4,
        }
    }
}

/// Static shape of one field of a vertex type: `components` values of `attrib_type`, read
/// as normalized integers when `normalized`. `components` is 1 to 4.
#[derive(Debug, Clone, Copy, PartialEq, Eq, Structural)]
pub struct VertexField {
    pub attrib_type: AttribType,
    pub components: usize,
    pub normalized: bool,
}

impl VertexField {
    pub open spec fn valid(self) -> bool {
        1 <= self.components <= 4
    }

    pub open spec fn spec_size(self) -> nat {
        (self.components as nat) * self.attrib_type.spec_size()
    }

    /// Bytes the field takes in a vertex.
    pub fn size(&self) -> (r: usize)
        requires
            self.valid(),
        ensures
            r == self.spec_size(),
            r <= 32,
    {
        self.components * self.attrib_type.size()
    }
}

/// Byte offset of field `i` of a vertex: the sizes of the fields before it, added up.
pub open spec fn field_offset(fields: Seq<VertexField>, i: int) -> nat
    decreases i,
{
    if i <= 0 {
        0
    } else {
        field_offset(fields, i - 1) + fields[i - 1].spec_size()
    }
}

/// Description of one vertex attribute.
#[derive(Debug, Clone, Copy, PartialEq, Eq, Structural)]
pub struct VertexDesc {
    pub num_components: usize,
    pub raw_type: AttribType,
    pub normalized: bool,
    pub offset: usize,
}

impl VertexDesc {
    /// The attribute for `field`, starting at byte `offset` of the vertex.
    pub fn from_gl_type(field: VertexField, offset: usize) -> (r: VertexDesc)
        ensures
            r == (VertexDesc {
                num_components: field.components,
                raw_type: field.attrib_type,
                normalized: field.normalized,
                offset,
            }),
    {
        VertexDesc {
            num_components: field.components,
            raw_type: field.attrib_type,
            normalized: field.normalized,
            offset,
        }
    }

    /// The same attribute, read as normalized integers.
    pub fn normalized(self) -> (r: VertexDesc)
        ensures
            r == (VertexDesc { normalized: true, ..self }),
    {
        VertexDesc { normalized: true, ..self }
    }
}

/// The attribute layout of a vertex made of `fields`, in order: one attribute per field, at
/// the field's offset, and the vertex stride.
pub fn vertex_layout(fields: &Vec<VertexField>) -> (r: (Vec<VertexDesc>, usize))
    requires
        fields@.len() <= 1024,
        forall|i: int| 0 <= i < fields@.len() ==> (#[trigger] fields@[i]).valid(),
    ensures
        r.0@.len() == fields@.len(),
        r.1 == field_offset(fields@, fields@.len() as int),
        forall|i: int|
            0 <= i < fields@.len() ==> #[trigger] r.0@[i] == VertexDesc::from_field(
                fields@[i],
                field_offset(fields@, i),
            ),
{
    let mut descs: Vec<VertexDesc> = Vec::new();
    let mut offset: usize = 0;
    let mut i: usize = 0;
    while i < fields.len()
        invariant
            i <= fields@.len() <= 1024,
            forall|k: int| 0 <= k < fields@.len() ==> (#[trigger] fields@[k]).valid(),
            descs@.len() == i,
            offset == field_offset(fields@, i as int),
            offset <= 32 * i,
            forall|k: int|
                0 <= k < i ==> #[trigger] descs@[k] == VertexDesc::from_field(
                    fields@[k],
                    field_offset(fields@, k),
                ),
        decreases fields.len() - i,
    {
        let f = fields[i];
        descs.push(VertexDesc::from_gl_type(f, offset));
        offset = offset + f.size();
        i = i + 1;
    }
    (descs, offset)
}

impl VertexDesc {
    pub open spec fn from_field(field: VertexField, offset: nat) -> VertexDesc {
        VertexDesc {
            num_components: field.components,
            raw_type: field.attrib_type,
            normalized: field.normalized,
            offset: offset as usize,
        }
    }
}

/// Identifier of a vertex array object. Never `0`.
#[derive(Debug, Clone, Copy, PartialEq, Eq)]
pub struct VaoId {
    id: u32,
}

impl View for VaoId {
    type V = u32;

    closed spec fn view(&self) -> u32 {
        self.id
    }
}

impl VaoId {
    #[verifier::type_invariant]
    spec fn inv(self) -> bool {
        self.id != 0
    }

    /// The identifier for a driver handle; `None` for the reserved handle `0`.
    pub fn new(id: u32) -> (r: Option<VaoId>)
        ensures
            r is Some <==> id != 0,
            r matches Some(v) ==> v@ == id,
    {
        if id == 0 {
            None
        } else {
            Some(VaoId { id })
        }
    }

    /// The raw driver handle.
    pub fn get(&self) -> (r: u32)
        ensures
            r == self@,
            r != 0,
    {
        proof {
            use_type_invariant(self);
        }
        self.id
    }
}

/// The calls that describe the attributes of a vertex made of `fields`, one per field.
pub open spec fn attrib_calls(fields: Seq<VertexField>) -> Seq<GlCall> {
    Seq::new(
        fields.len(),
        |i: int|
            GlCall::VertexAttribPointer {
                index: i as u32,
                components: fields[i].components,
                attrib_type: fields[i].attrib_type,
                normalized: fields[i].normalized,
                stride: field_offset(fields, fields.len() as int) as usize,
                offset: field_offset(fields, i) as usize,
            },
    )
}

/// The calls that enable attributes `0..n`.
pub open spec fn enable_calls(n: nat) -> Seq<GlCall> {
    Seq::new(n, |i: int| GlCall::EnableVertexAttribArray { index: i as u32 })
}

/// A vertex array object: the attribute layout of bound vertex buffers, and the index type of
/// its element buffer, if it has one.
#[derive(Debug)]
pub struct VertexArray {
    id: VaoId,
    element: Option<IndexType>,
}

impl Resource for VertexArray {
    closed spec fn spec_id(&self) -> u32 {
        self.id@
    }

    closed spec fn spec_point(&self) -> BindingPoint {
        BindingPoint::VertexArray
    }

    fn id(&self) -> (r: u32) {
        self.id.get()
    }

    fn binding_point(&self) -> (r: BindingPoint) {
        BindingPoint::VertexArray
    }
}

/// Builds the attribute calls of the layout `descs` with vertex stride `stride`.
fn attrib_call_vec(fields: &Vec<VertexField>, descs: &Vec<VertexDesc>, stride: usize) -> (r: Vec<GlCall>)
    requires
        fields@.len() <= 1024,
        descs@.len() == fields@.len(),
        stride == field_offset(fields@, fields@.len() as int),
        forall|i: int|
            0 <= i < fields@.len() ==> #[trigger] descs@[i] == VertexDesc::from_field(
                fields@[i],
                field_offset(fields@, i),
            ),
    ensures
        r@ == attrib_calls(fields@),
{
    let mut out: Vec<GlCall> = Vec::new();
    let mut i: usize = 0;
    while i < descs.len()
        invariant
            i <= descs@.len() == fields@.len() <= 1024,
            stride == field_offset(fields@, fields@.len() as int),
            forall|k: int|
                0 <= k < fields@.len() ==> #[trigger] descs@[k] == VertexDesc::from_field(
                    fields@[k],
                    field_offset(fields@, k),
                ),
            out@ == attrib_calls(fields@).take(i as int),
        decreases descs.len() - i,
    {
        let d = descs[i];
        out.push(GlCall::VertexAttribPointer {
            index: i as u32,
            components: d.num_components,
            attrib_type: d.raw_type,
            normalized: d.normalized,
            stride,
            offset: d.offset,
        });
        i = i + 1;
        assert(out@ =~= attrib_calls(fields@).take(i as int));
    }
    assert(out@ =~= attrib_calls(fields@));
    out
}

/// Builds the calls that enable attributes `0..n`.
fn enable_call_vec(n: usize) -> (r: Vec<GlCall>)
    requires
        n <= 1024,
    ensures
        r@ == enable_calls(n as nat),
{
    let mut out: Vec<GlCall> = Vec::new();
    let mut i: usize = 0;
    while i < n
        invariant
            i <= n <= 1024,
            out@ == enable_calls(n as nat).take(i as int),
        decreases n - i,
    {
        out.push(GlCall::EnableVertexAttribArray { index: i as u32 });
        i = i + 1;
        assert(out@ =~= enable_calls(n as nat).take(i as int));
    }
    assert(out@ =~= enable_calls(n as nat));
    out
}

impl VertexArray {
    /// A vertex array on the object `handle` that the driver created, with no element buffer.
    pub fn new(handle: u32) -> (r: Result<VertexArray, Error>)
        ensures
            r is Ok <==> handle != 0,
            r is Err ==> r matches Err(Error::NullHandle),
            r matches Ok(v) ==> v.spec_id() == handle && v.spec_element() is None,
    {
        match VaoId::new(handle) {
            Some(id) => Ok(VertexArray { id, element: None }),
            None => Err(Error::NullHandle),
        }
    }

    /// Index type of the element buffer, if one is attached.
    pub closed spec fn spec_element(&self) -> Option<IndexType> {
        self.element
    }

    pub fn element(&self) -> (r: Option<IndexType>)
        ensures
            r == self.spec_element(),
    {
        self.element
    }

    /// Describes the attributes of a vertex made of `fields` to the vertex array, one per
    /// field, and returns how many there are.
    pub fn set_vertex_attributes(&self, ctx: &mut Context, fields: &Vec<VertexField>) -> (r: usize)
        requires
            old(ctx).wf(),
            fields@.len() <= 1024,
            forall|i: int| 0 <= i < fields@.len() ==> (#[trigger] fields@[i]).valid(),
        ensures
            final(ctx).wf(),
            final(ctx).spec_alignment() == old(ctx).spec_alignment(),
            final(ctx).restores() == old(ctx).restores(),
            final(ctx).slots() == scoped_in(old(ctx).slots(), BindingPoint::VertexArray, self.spec_id(), old(ctx).restores()),
            r == fields@.len(),
            final(ctx).pending() == old(ctx).pending() + scoped_calls(
                BindingPoint::VertexArray,
                self.spec_id(),
                old(ctx).spec_current(BindingPoint::VertexArray),
                old(ctx).restores(),
                attrib_calls(fields@),
            ),
    {
        let (descs, stride) = vertex_layout(fields);
        let calls = attrib_call_vec(fields, &descs, stride);
        ctx.run_bound(BindingPoint::VertexArray, self.id.get(), calls);
        fields.len()
    }

    pub fn enable_vertex_attribute(&self, ctx: &mut Context, index: u32)
        requires
            old(ctx).wf(),
        ensures
            final(ctx).wf(),
            final(ctx).spec_alignment() == old(ctx).spec_alignment(),
            final(ctx).restores() == old(ctx).restores(),
            final(ctx).slots() == scoped_in(old(ctx).slots(), BindingPoint::VertexArray, self.spec_id(), old(ctx).restores()),
            final(ctx).pending() == old(ctx).pending() + scoped_calls(
                BindingPoint::VertexArray,
                self.spec_id(),
                old(ctx).spec_current(BindingPoint::VertexArray),
                old(ctx).restores(),
                seq![GlCall::EnableVertexAttribArray { index }],
            ),
    {
        ctx.run_bound(BindingPoint::VertexArray, self.id.get(), vec![GlCall::EnableVertexAttribArray { index }]);
    }

    pub fn disable_vertex_attribute(&self, ctx: &mut Context, index: u32)
        requires
            old(ctx).wf(),
        ensures
            final(ctx).wf(),
            final(ctx).spec_alignment() == old(ctx).spec_alignment(),
            final(ctx).restores() == old(ctx).restores(),
            final(ctx).slots() == scoped_in(old(ctx).slots(), BindingPoint::VertexArray, self.spec_id(), old(ctx).restores()),
            final(ctx).pending() == old(ctx).pending() + scoped_calls(
                BindingPoint::VertexArray,
                self.spec_id(),
                old(ctx).spec_current(BindingPoint::VertexArray),
                old(ctx).restores(),
                seq![GlCall::DisableVertexAttribArray { index }],
            ),
    {
        ctx.run_bound(BindingPoint::VertexArray, self.id.get(), vec![GlCall::DisableVertexAttribArray { index }]);
    }

    /// Lays the vertices of `buffer`, an array buffer of vertices made of `fields`, out on
    /// the attributes of the vertex array and enables them. The buffer's element size must
    /// be the vertex size.
    pub fn with_vertex_buffer(&mut self, ctx: &mut Context, buffer: &Buffer, fields: &Vec<VertexField>) -> (r: Result<(), Error>)
        requires
            old(ctx).wf(),
            fields@.len() <= 1024,
            forall|i: int| 0 <= i < fields@.len() ==> (#[trigger] fields@[i]).valid(),
        ensures
            final(ctx).wf(),
            final(self).spec_id() == old(self).spec_id(),
            final(self).spec_element() == old(self).spec_element(),
            r is Ok <==> buffer.spec_kind() == BufferKind::Array && buffer.spec_element_size()
                == field_offset(fields@, fields@.len() as int),
            final(ctx).spec_alignment() == old(ctx).spec_alignment(),
            final(ctx).restores() == old(ctx).restores(),
            r is Ok ==> final(ctx).slots() == paired_slots(
                old(ctx).slots(),
                BindingPoint::VertexArray,
                old(self).spec_id(),
                BindingPoint::Buffer(BufferKind::Array),
                buffer.spec_id(),
                old(ctx).restores(),
            ),
            old(ctx).restores() ==> final(ctx).slots() == old(ctx).slots(),
            r is Err ==> *final(ctx) == *old(ctx),
            r is Ok ==> final(ctx).pending() == old(ctx).pending() + seq![
                GlCall::Bind { point: BindingPoint::VertexArray, id: old(self).spec_id() },
                GlCall::Bind { point: BindingPoint::Buffer(BufferKind::Array), id: buffer.spec_id() },
            ] + attrib_calls(fields@) + enable_calls(fields@.len()) + release_calls(
                BindGuard {
                    point: BindingPoint::VertexArray,
                    previous: old(ctx).spec_current(BindingPoint::VertexArray),
                    bound: old(self).spec_id(),
                },
                old(ctx).restores(),
            ) + release_calls(
                BindGuard {
                    point: BindingPoint::Buffer(BufferKind::Array),
                    previous: old(ctx).spec_current(BindingPoint::Buffer(BufferKind::Array)),
                    bound: buffer.spec_id(),
                },
                old(ctx).restores(),
            ),
    {
        if buffer.kind() != BufferKind::Array {
            return Err(Error::WrongBufferKind);
        }
        let (descs, stride) = vertex_layout(fields);
        if buffer.element_size() != stride {
            return Err(Error::DataLength { expected: stride, actual: buffer.element_size() });
        }
        let calls = attrib_call_vec(fields, &descs, stride);
        let enables = enable_call_vec(fields.len());
        proof {
            old(ctx).lemma_wf();
            crate::base::lemma_bind_is_local(
                old(ctx).slots(),
                BindingPoint::VertexArray,
                BindingPoint::Buffer(BufferKind::Array),
                self.id@,
            );
            lemma_paired_binding_leaves_table(
                old(ctx).slots(),
                BindingPoint::VertexArray,
                self.id@,
                BindingPoint::Buffer(BufferKind::Array),
                buffer.spec_id(),
            );
        }
        let gv = ctx.bind_raw(BindingPoint::VertexArray, self.id.get());
        let gb = ctx.bind_raw(BindingPoint::Buffer(BufferKind::Array), buffer.id());
        ctx.push_all(calls);
        ctx.push_all(enables);
        ctx.release(gv);
        ctx.release(gb);
        assert(ctx.pending() =~= old(ctx).pending() + seq![
            GlCall::Bind { point: BindingPoint::VertexArray, id: old(self).spec_id() },
            GlCall::Bind { point: BindingPoint::Buffer(BufferKind::Array), id: buffer.spec_id() },
        ] + attrib_calls(fields@) + enable_calls(fields@.len()) + release_calls(gv, old(ctx).restores())
            + release_calls(gb, old(ctx).restores()));
        Ok(())
    }

    /// Attaches `buffer`, an element buffer of indices of `index_type`, to the vertex array,
    /// for indexed draws. The buffer's element size must be the index size.
    pub fn with_element_buffer(&mut self, ctx: &mut Context, buffer: &Buffer, index_type: IndexType) -> (r: Result<(), Error>)
        requires
            old(ctx).wf(),
        ensures
            final(ctx).wf(),
            final(self).spec_id() == old(self).spec_id(),
            r is Ok <==> buffer.spec_kind() == BufferKind::ElementArray && buffer.spec_element_size()
                == index_type.spec_size(),
            final(ctx).spec_alignment() == old(ctx).spec_alignment(),
            final(ctx).restores() == old(ctx).restores(),
            r is Ok ==> final(ctx).slots() == paired_slots(
                old(ctx).slots(),
                BindingPoint::VertexArray,
                old(self).spec_id(),
                BindingPoint::Buffer(BufferKind::ElementArray),
                buffer.spec_id(),
                old(ctx).restores(),
            ),
            old(ctx).restores() ==> final(ctx).slots() == old(ctx).slots(),
            r is Err ==> *final(ctx) == *old(ctx) && *final(self) == *old(self),
            r is Ok ==> final(self).spec_element() == Some(index_type),
            r is Ok ==> final(ctx).pending() == old(ctx).pending() + seq![
                GlCall::Bind { point: BindingPoint::VertexArray, id: old(self).spec_id() },
                GlCall::Bind { point: BindingPoint::Buffer(BufferKind::ElementArray), id: buffer.spec_id() },
            ] + release_calls(
                BindGuard {
                    point: BindingPoint::VertexArray,
                    previous: old(ctx).spec_current(BindingPoint::VertexArray),
                    bound: old(self).spec_id(),
                },
                old(ctx).restores(),
            ) + release_calls(
                BindGuard {
                    point: BindingPoint::Buffer(BufferKind::ElementArray),
                    previous: old(ctx).spec_current(BindingPoint::Buffer(BufferKind::ElementArray)),
                    bound: buffer.spec_id(),
                },
                old(ctx).restores(),
            ),
    {
        if buffer.kind() != BufferKind::ElementArray {
            return Err(Error::WrongBufferKind);
        }
        if buffer.element_size() != index_type.size() {
            return Err(Error::DataLength { expected: index_type.size(), actual: buffer.element_size() });
        }
        proof {
            old(ctx).lemma_wf();
            crate::base::lemma_bind_is_local(
                old(ctx).slots(),
                BindingPoint::VertexArray,
                BindingPoint::Buffer(BufferKind::ElementArray),
                self.id@,
            );
            lemma_paired_binding_leaves_table(
                old(ctx).slots(),
                BindingPoint::VertexArray,
                self.id@,
                BindingPoint::Buffer(BufferKind::ElementArray),
                buffer.spec_id(),
            );
        }
        let gv = ctx.bind_raw(BindingPoint::VertexArray, self.id.get());
        let gb = ctx.bind_raw(BindingPoint::Buffer(BufferKind::ElementArray), buffer.id());
        ctx.release(gv);
        ctx.release(gb);
        assert(ctx.pending() =~= old(ctx).pending() + seq![
            GlCall::Bind { point: BindingPoint::VertexArray, id: old(self).spec_id() },
            GlCall::Bind { point: BindingPoint::Buffer(BufferKind::ElementArray), id: buffer.spec_id() },
        ] + release_calls(gv, old(ctx).restores()) + release_calls(gb, old(ctx).restores()));
        self.element = Some(index_type);
        Ok(())
    }

    /// Deletes the vertex array object.
    pub fn delete(self, ctx: &mut Context)
        ensures
            final(ctx).slots() == old(ctx).slots(),
            final(ctx).wf() == old(ctx).wf(),
            final(ctx).pending() == old(ctx).pending().push(GlCall::DeleteVertexArray { id: self.spec_id() }),
    {
        let id = self.id.get();
        ctx.push(GlCall::DeleteVertexArray { id });
    }
}

} // verus!
