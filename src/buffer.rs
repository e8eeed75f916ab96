use vstd::prelude::*;

use crate::base::{release_calls, scoped_calls, scoped_in, BindGuard, BindingPoint, Context, Resource};
use crate::calls::GlCall;
use crate::utils::Error;

verus! {

/// Binding point of a buffer object.
#[derive(Debug, Clone, Copy, PartialEq, Eq, Structural)]
pub enum BufferKind {
    Array,
    AtomicCounter,
    CopyRead,
    CopyWrite,
    DispatchIndirect,
    DrawIndirect,
    ElementArray,
    PixelPack,
    PixelUnpack,
    Query,
    ShaderStorage,
    TextureBuffer,
    TransformFeedback,
    Uniform,
}

impl BufferKind {
    /// Position of the kind among all buffer kinds.
    pub open spec fn spec_index(self) -> nat {
        match self {
            BufferKind::Array => 0,
            BufferKind::AtomicCounter => 1,
            BufferKind::CopyRead => 2,
            BufferKind::CopyWrite => 3,
            BufferKind::DispatchIndirect => 4,
            BufferKind::DrawIndirect => 5,
            BufferKind::ElementArray => 6,
            BufferKind::PixelPack => 7,
            BufferKind::PixelUnpack => 8,
            BufferKind::Query => 9,
            BufferKind::ShaderStorage => 10,
            BufferKind::TextureBuffer => 11,
            BufferKind::TransformFeedback => 12,
            BufferKind::Uniform => 13,
        }
    }

    pub fn index(&self) -> (r: usize)
        ensures
            r == self.spec_index(),
    {
        match self {
            BufferKind::Array => 0,
            BufferKind::AtomicCounter => 1,
            BufferKind::CopyRead => 2,
            BufferKind::CopyWrite => 3,
            BufferKind::DispatchIndirect => 4,
            BufferKind::DrawIndirect => 5,
            BufferKind::ElementArray => 6,
            BufferKind::PixelPack => 7,
            BufferKind::PixelUnpack => 8,
            BufferKind::Query => 9,
            BufferKind::ShaderStorage => 10,
            BufferKind::TextureBuffer => 11,
            BufferKind::TransformFeedback => 12,
            BufferKind::Uniform => 13,
        }
    }
}

/// Buffer usage hint. It steers where the driver places the data, not what the data is.
#[derive(Debug, Clone, Copy, PartialEq, Eq, Structural)]
pub enum BufferUsageHint {
    Stream,
    Static,
    Dynamic,
}

/// `x` rounded up to a multiple of `of`: `ceil(x / of) * of`.
pub open spec fn round_up(x: nat, of: nat) -> nat {
    ((x + of - 1) as nat / of) * of
}

/// Rounds `x` up to the next multiple of `of`; a multiple stays as it is.
pub fn next_multiple(x: usize, of: usize) -> (r: usize)
    requires
        of > 0,
        x + of <= usize::MAX,
    ensures
        r == round_up(x as nat, of as nat),
        x <= r < x + of,
{
    let rem = x % of;
    let q = x / of;
    proof {
        assert(x == q * of + rem) by (nonlinear_arith)
            requires rem == x % of, q == x / of, of > 0;
    }
    if rem == 0 {
        proof {
            assert((x + of - 1) as nat / of as nat == q) by (nonlinear_arith)
                requires x == q * of, of > 0, q >= 0;
        }
        x
    } else {
        proof {
            assert((x + of - 1) as nat / of as nat == q + 1) by (nonlinear_arith)
                requires x == q * of + rem, 0 < rem < of, q >= 0;
            assert(x + (of - rem) == (q + 1) * of) by (nonlinear_arith)
                requires x == q * of + rem;
        }
        x + (of - rem)
    }
}

/// Distance in bytes between consecutive elements in a buffer of `kind`: uniform buffers start
/// each element on a multiple of the driver's alignment, other kinds pack elements tightly.
pub open spec fn spec_stride(kind: BufferKind, element_size: nat, alignment: nat) -> nat {
    if kind == BufferKind::Uniform {
        round_up(element_size, alignment)
    } else {
        element_size
    }
}

/// The bytes uploaded for `data`, a run of elements of `size` bytes each: every element is
/// followed by zeros up to `stride` bytes.
pub open spec fn padded(data: Seq<u8>, size: nat, stride: nat) -> Seq<u8>
    decreases data.len(),
{
    if size == 0 || data.len() < size {
        Seq::empty()
    } else {
        data.take(size as int) + Seq::new((stride - size) as nat, |i: int| 0u8) + padded(
            data.skip(size as int),
            size,
            stride,
        )
    }
}

/// The elements held in `bytes`, laid out `stride` bytes apart, each `size` bytes long.
pub open spec fn unpadded(bytes: Seq<u8>, size: nat, stride: nat) -> Seq<u8>
    decreases bytes.len(),
{
    if stride == 0 || bytes.len() < stride {
        Seq::empty()
    } else {
        bytes.take(size as int) + unpadded(bytes.skip(stride as int), size, stride)
    }
}

/// Reading back what was uploaded gives the uploaded elements, byte for byte, whatever padding
/// the buffer kind put between them; the upload spans `len * stride` bytes, the full range of
/// `len` elements.
pub proof fn lemma_read_back(data: Seq<u8>, size: nat, stride: nat)
    requires
        0 < size <= stride,
        data.len() % size == 0,
    ensures
        padded(data, size, stride).len() == (data.len() / size) * stride,
        unpadded(padded(data, size, stride), size, stride) == data,
    decreases data.len(),
{
    if data.len() < size {
        assert(data.len() == 0) by (nonlinear_arith)
            requires data.len() < size, data.len() % size == 0, size > 0;
        assert(data =~= Seq::<u8>::empty());
        assert((data.len() / size) * stride == 0) by (nonlinear_arith)
            requires data.len() == 0, size > 0;
    } else {
        let rest = data.skip(size as int);
        assert(rest.len() % size == 0) by {
            vstd::arithmetic::div_mod::lemma_mod_sub_multiples_vanish(data.len() as int, size as int);
        }
        lemma_read_back(rest, size, stride);
        assert(rest.len() / size + 1 == data.len() / size) by {
            vstd::arithmetic::div_mod::lemma_div_plus_one(rest.len() as int, size as int);
            assert(data.len() as int == size as int + rest.len() as int);
        }
        let q = rest.len() / size;
        let q2 = data.len() / size;
        assert(q * stride + stride == q2 * stride) by (nonlinear_arith)
            requires q + 1 == q2;
        let p = padded(data, size, stride);
        let head = data.take(size as int) + Seq::new((stride - size) as nat, |i: int| 0u8);
        assert(p == head + padded(rest, size, stride));
        assert(p.skip(stride as int) =~= padded(rest, size, stride));
        assert(p.take(size as int) =~= data.take(size as int));
        assert(data =~= data.take(size as int) + rest);
    }
}

/// Buffers whose stride is the element size (every kind but uniform) upload their data as it is:
/// the driver-side bytes are exactly the elements' bytes.
pub proof fn lemma_tight_upload_is_data(data: Seq<u8>, size: nat)
    requires
        size > 0,
        data.len() % size == 0,
    ensures
        padded(data, size, size) == data,
    decreases data.len(),
{
    if data.len() < size {
        assert(data.len() == 0) by (nonlinear_arith)
            requires data.len() < size, data.len() % size == 0, size > 0;
        assert(data =~= Seq::<u8>::empty());
    } else {
        let rest = data.skip(size as int);
        assert(rest.len() % size == 0) by {
            vstd::arithmetic::div_mod::lemma_mod_sub_multiples_vanish(data.len() as int, size as int);
        }
        lemma_tight_upload_is_data(rest, size);
        assert(data =~= data.take(size as int) + Seq::new(0, |i: int| 0u8) + rest);
    }
}

/// Pads each `size`-byte element of `data` with zeros up to `stride` bytes.
pub fn pad_elements(data: &[u8], size: usize, stride: usize) -> (r: Vec<u8>)
    requires
        0 < size <= stride,
    ensures
        r@ == padded(data@, size as nat, stride as nat),
{
    let mut out: Vec<u8> = Vec::new();
    let mut pos: usize = 0;
    assert(data@.skip(0) =~= data@);
    while pos <= data.len() && size <= data.len() - pos
        invariant
            0 < size <= stride,
            pos <= data.len(),
            out@ + padded(data@.skip(pos as int), size as nat, stride as nat) == padded(
                data@,
                size as nat,
                stride as nat,
            ),
        decreases data.len() - pos,
    {
        let ghost before = out@;
        let ghost rest = data@.skip(pos as int);
        let mut j: usize = 0;
        while j < size
            invariant
                j <= size,
                pos + size <= data.len(),
                out@ == before + data@.subrange(pos as int, pos + j),
            decreases size - j,
        {
            out.push(data[pos + j]);
            j = j + 1;
            assert(data@.subrange(pos as int, pos + j) =~= data@.subrange(pos as int, pos + j - 1)
                + seq![data@[pos + j - 1]]);
        }
        let mut k: usize = size;
        while k < stride
            invariant
                size <= k <= stride,
                out@ == before + data@.subrange(pos as int, pos + size) + Seq::new(
                    (k - size) as nat,
                    |i: int| 0u8,
                ),
            decreases stride - k,
        {
            out.push(0);
            k = k + 1;
            assert(Seq::new((k - size) as nat, |i: int| 0u8) =~= Seq::new(
                (k - 1 - size) as nat,
                |i: int| 0u8,
            ) + seq![0u8]);
        }
        assert(rest.take(size as int) =~= data@.subrange(pos as int, pos + size));
        assert(rest.skip(size as int) =~= data@.skip(pos + size));
        pos = pos + size;
    }
    assert(data@.skip(pos as int).len() < size);
    assert(out@ =~= padded(data@, size as nat, stride as nat));
    out
}

/// Keeps the first `size` bytes of every `stride`-byte element of `bytes`.
pub fn unpad_elements(bytes: &[u8], size: usize, stride: usize) -> (r: Vec<u8>)
    requires
        0 < size <= stride,
    ensures
        r@ == unpadded(bytes@, size as nat, stride as nat),
{
    let mut out: Vec<u8> = Vec::new();
    let mut pos: usize = 0;
    assert(bytes@.skip(0) =~= bytes@);
    while pos <= bytes.len() && stride <= bytes.len() - pos
        invariant
            0 < size <= stride,
            pos <= bytes.len(),
            out@ + unpadded(bytes@.skip(pos as int), size as nat, stride as nat) == unpadded(
                bytes@,
                size as nat,
                stride as nat,
            ),
        decreases bytes.len() - pos,
    {
        let ghost before = out@;
        let ghost rest = bytes@.skip(pos as int);
        let mut j: usize = 0;
        while j < size
            invariant
                j <= size <= stride,
                pos + stride <= bytes.len(),
                out@ == before + bytes@.subrange(pos as int, pos + j),
            decreases size - j,
        {
            out.push(bytes[pos + j]);
            j = j + 1;
            assert(bytes@.subrange(pos as int, pos + j) =~= bytes@.subrange(pos as int, pos + j - 1)
                + seq![bytes@[pos + j - 1]]);
        }
        assert(rest.take(size as int) =~= bytes@.subrange(pos as int, pos + size));
        assert(rest.skip(stride as int) =~= bytes@.skip(pos + stride));
        pos = pos + stride;
    }
    assert(bytes@.skip(pos as int).len() < stride);
    assert(out@ =~= unpadded(bytes@, size as nat, stride as nat));
    out
}

/// Identifier of a buffer object, with the binding point it is used at. Never `0`.
#[derive(Debug, Clone, Copy, PartialEq, Eq)]
pub struct BufferId {
    id: u32,
    kind: BufferKind,
}

impl View for BufferId {
    type V = u32;

    closed spec fn view(&self) -> u32 {
        self.id
    }
}

impl BufferId {
    #[verifier::type_invariant]
    spec fn inv(self) -> bool {
        self.id != 0
    }

    pub closed spec fn spec_kind(self) -> BufferKind {
        self.kind
    }

    /// The identifier for a driver handle; `None` for the reserved handle `0`.
    pub fn new(id: u32, kind: BufferKind) -> (r: Option<BufferId>)
        ensures
            r is Some <==> id != 0,
            r matches Some(b) ==> b@ == id && b.spec_kind() == kind,
    {
        if id == 0 {
            None
        } else {
            Some(BufferId { id, kind })
        }
    }

    /// The raw driver handle.
    pub fn get(&self) -> (r: u32)
        ensures
            r == self@,
            r != 0,
    {
        proof {
            use_type_invariant(self);
        }
        self.id
    }

    pub fn kind(&self) -> (r: BufferKind)
        ensures
            r == self.spec_kind(),
    {
        self.kind
    }
}

/// A buffer object: linear driver memory holding `len()` elements of `element_size` bytes.
#[derive(Debug)]
pub struct Buffer {
    id: BufferId,
    element_size: usize,
    alignment: usize,
    stride: usize,
    count: usize,
}

/// `upload` is the driver call that replaces a buffer's store of `kind` with `bytes`.
pub open spec fn is_upload(upload: GlCall, kind: BufferKind, bytes: Seq<u8>, usage: BufferUsageHint) -> bool {
    upload matches GlCall::BufferData { kind: k, bytes: b, usage: u } && k == kind && b@ == bytes
        && u == usage
}

/// `write` is the driver call that writes `bytes` at `offset` into the buffer current at `kind`.
pub open spec fn is_range_write(write: GlCall, kind: BufferKind, offset: nat, bytes: Seq<u8>) -> bool {
    write matches GlCall::WriteRange { kind: k, offset: o, bytes: b } && k == kind && o == offset
        && b@ == bytes
}

impl Resource for Buffer {
    closed spec fn spec_id(&self) -> u32 {
        self.id@
    }

    closed spec fn spec_point(&self) -> BindingPoint {
        BindingPoint::Buffer(self.id.spec_kind())
    }

    fn id(&self) -> (r: u32) {
        self.id.get()
    }

    fn binding_point(&self) -> (r: BindingPoint) {
        BindingPoint::Buffer(self.id.kind())
    }
}

impl Buffer {
    #[verifier::type_invariant]
    spec fn inv(self) -> bool {
        &&& 0 < self.element_size <= self.stride
        &&& self.alignment > 0
        &&& self.stride == spec_stride(self.id.spec_kind(), self.element_size as nat, self.alignment as nat)
        &&& self.count * self.stride <= usize::MAX
    }

    pub closed spec fn spec_kind(&self) -> BufferKind {
        self.id.spec_kind()
    }

    /// The uniform-buffer alignment the buffer was made with.
    pub closed spec fn spec_alignment(&self) -> nat {
        self.alignment as nat
    }

    pub closed spec fn spec_len(&self) -> nat {
        self.count as nat
    }

    pub closed spec fn spec_element_size(&self) -> nat {
        self.element_size as nat
    }

    pub closed spec fn spec_stride(&self) -> nat {
        self.stride as nat
    }

    /// An empty buffer of `kind` for elements of `element_size` bytes, on the object `handle`
    /// that the driver created. Each element takes `stride()` bytes: for uniform buffers the
    /// element size rounded up to the context's alignment, else the element size itself.
    pub fn new(ctx: &Context, handle: u32, kind: BufferKind, element_size: usize) -> (r: Result<Buffer, Error>)
        requires
            ctx.wf(),
        ensures
            element_size == 0 ==> r matches Err(Error::ZeroSizedElement),
            element_size > 0 && handle == 0 ==> r matches Err(Error::NullHandle),
            element_size > 0 && handle != 0 && (kind == BufferKind::Uniform && element_size
                + ctx.spec_alignment() > usize::MAX) ==> r matches Err(Error::OutOfBounds),
            r is Ok <==> (element_size > 0 && handle != 0 && !(kind == BufferKind::Uniform
                && element_size + ctx.spec_alignment() > usize::MAX)),
            r matches Ok(b) ==> b.spec_id() == handle && b.spec_kind() == kind && b.spec_len() == 0
                && b.spec_element_size() == element_size && b.spec_alignment() == ctx.spec_alignment()
                && b.spec_stride() == spec_stride(
                kind,
                element_size as nat,
                ctx.spec_alignment(),
            ),
    {
        if element_size == 0 {
            return Err(Error::ZeroSizedElement);
        }
        let id = match BufferId::new(handle, kind) {
            Some(id) => id,
            None => {
                return Err(Error::NullHandle);
            },
        };
        let alignment = ctx.alignment();
        let stride = if kind == BufferKind::Uniform {
            if element_size > usize::MAX - alignment {
                return Err(Error::OutOfBounds);
            }
            next_multiple(element_size, alignment)
        } else {
            element_size
        };
        Ok(Buffer { id, element_size, alignment, stride, count: 0 })
    }

    pub fn is_empty(&self) -> (r: bool)
        ensures
            r == (self.spec_len() == 0),
    {
        self.count == 0
    }

    /// Number of elements uploaded.
    pub fn len(&self) -> (r: usize)
        ensures
            r == self.spec_len(),
    {
        self.count
    }

    pub fn kind(&self) -> (r: BufferKind)
        ensures
            r == self.spec_kind(),
    {
        self.id.kind()
    }

    /// Bytes from the start of one element to the start of the next.
    pub fn stride(&self) -> (r: usize)
        ensures
            r == self.spec_stride(),
            r == spec_stride(self.spec_kind(), self.spec_element_size(), self.spec_alignment()),
            0 < self.spec_element_size() <= r,
            self.spec_alignment() > 0,
            self.spec_len() * r <= usize::MAX,
    {
        proof {
            use_type_invariant(self);
        }
        self.stride
    }

    pub fn element_size(&self) -> (r: usize)
        ensures
            r == self.spec_element_size(),
    {
        self.element_size
    }

    /// Replaces the buffer's data with `data`, a run of elements of `element_size()` bytes
    /// each. Uniform buffers get each element padded with zeros up to the stride.
    pub fn set(&mut self, ctx: &mut Context, data: &[u8], usage: BufferUsageHint) -> (r: Result<(), Error>)
        requires
            old(ctx).wf(),
        ensures
            final(ctx).wf(),
            final(self).spec_id() == old(self).spec_id(),
            final(self).spec_kind() == old(self).spec_kind(),
            final(self).spec_element_size() == old(self).spec_element_size(),
            final(self).spec_stride() == old(self).spec_stride(),
            final(self).spec_alignment() == old(self).spec_alignment(),
            final(ctx).spec_alignment() == old(ctx).spec_alignment(),
            final(ctx).restores() == old(ctx).restores(),
            r is Ok <==> data@.len() % old(self).spec_element_size() == 0 && (data@.len()
                / old(self).spec_element_size()) * old(self).spec_stride() <= usize::MAX,
            data@.len() % old(self).spec_element_size() != 0 ==> r matches Err(
                Error::PartialElement { .. },
            ),
            r is Err ==> *final(self) == *old(self) && *final(ctx) == *old(ctx),
            r is Ok ==> final(self).spec_len() == data@.len() / old(self).spec_element_size(),
            r is Ok ==> final(ctx).slots() == scoped_in(
                old(ctx).slots(),
                old(self).spec_point(),
                old(self).spec_id(),
                old(ctx).restores(),
            ),
            r is Ok ==> exists|upload: GlCall|
                #[trigger] is_upload(
                    upload,
                    old(self).spec_kind(),
                    padded(data@, old(self).spec_element_size(), old(self).spec_stride()),
                    usage,
                ) && final(ctx).pending() == old(ctx).pending() + scoped_calls(
                    old(self).spec_point(),
                    old(self).spec_id(),
                    old(ctx).spec_current(old(self).spec_point()),
                    old(ctx).restores(),
                    seq![upload],
                ),
    {
        proof {
            use_type_invariant(&*self);
        }
        let es = self.element_size;
        if data.len() % es != 0 {
            return Err(Error::PartialElement { len: data.len(), element_size: es });
        }
        let n = data.len() / es;
        if n > usize::MAX / self.stride {
            proof {
                assert(n * self.stride > usize::MAX) by (nonlinear_arith)
                    requires n > usize::MAX / self.stride, self.stride > 0;
            }
            return Err(Error::OutOfBounds);
        }
        proof {
            assert(n * self.stride <= usize::MAX) by (nonlinear_arith)
                requires n <= usize::MAX / self.stride, self.stride > 0;
        }
        let bytes = pad_elements(data, es, self.stride);
        let kind = self.id.kind();
        let upload = GlCall::BufferData { kind, bytes, usage };
        let ghost g_upload = upload;
        let p = self.binding_point();
        let id = self.id();
        ctx.run_bound(p, id, vec![upload]);
        self.count = n;
        assert(is_upload(
            g_upload,
            kind,
            padded(data@, es as nat, self.stride as nat),
            usage,
        ));
        Ok(())
    }

    /// A new buffer of `kind` on the object `handle`, holding `data` with a static usage hint.
    pub fn with_data(
        ctx: &mut Context,
        handle: u32,
        kind: BufferKind,
        element_size: usize,
        data: &[u8],
    ) -> (r: Result<Buffer, Error>)
        requires
            old(ctx).wf(),
        ensures
            final(ctx).wf(),
            final(ctx).spec_alignment() == old(ctx).spec_alignment(),
            r matches Ok(b) ==> b.spec_id() == handle && b.spec_kind() == kind
                && b.spec_element_size() == element_size && b.spec_len() == data@.len()
                / element_size as nat,
            element_size == 0 ==> r matches Err(Error::ZeroSizedElement),
            element_size > 0 && handle == 0 ==> r matches Err(Error::NullHandle),
            element_size > 0 && data@.len() % element_size as nat != 0 ==> r is Err,
            r is Err ==> *final(ctx) == *old(ctx),
            final(ctx).restores() == old(ctx).restores(),
            r matches Ok(b) ==> b.spec_stride() == spec_stride(kind, element_size as nat, old(ctx).spec_alignment())
                && final(ctx).slots() == scoped_in(
                old(ctx).slots(),
                BindingPoint::Buffer(kind),
                handle,
                old(ctx).restores(),
            ),
            r matches Ok(b) ==> exists|upload: GlCall|
                #[trigger] is_upload(upload, kind, padded(data@, element_size as nat, b.spec_stride()), BufferUsageHint::Static)
                    && final(ctx).pending() == old(ctx).pending() + scoped_calls(
                    BindingPoint::Buffer(kind),
                    handle,
                    old(ctx).spec_current(BindingPoint::Buffer(kind)),
                    old(ctx).restores(),
                    seq![upload],
                ),
    {
        let mut b = Buffer::new(ctx, handle, kind, element_size)?;
        b.set(ctx, data, BufferUsageHint::Static)?;
        Ok(b)
    }

    /// The elements `start..end`, addressed in bytes: they begin at `start * stride()` and
    /// take `(end - start) * stride()` bytes. A range beyond the data is refused.
    pub fn slice(&self, start: usize, end: usize) -> (r: Result<BufferSlice, Error>)
        ensures
            r is Ok <==> start <= end <= self.spec_len(),
            r is Err ==> r matches Err(Error::OutOfBounds),
            r matches Ok(s) ==> s.spec_id() == self.spec_id() && s.spec_kind() == self.spec_kind()
                && s.spec_offset() == start * self.spec_stride() && s.spec_size() == (end - start)
                * self.spec_stride() && s.spec_count() == end - start && s.spec_element_size()
                == self.spec_element_size() && s.spec_stride() == self.spec_stride(),
            r matches Ok(s) ==> s.spec_stride() == spec_stride(
                self.spec_kind(),
                self.spec_element_size(),
                self.spec_alignment(),
            ),
            r matches Ok(s) ==> (self.spec_kind() != BufferKind::Uniform ==> s.spec_offset() == start
                * self.spec_element_size() && s.spec_size() == (end - start) * self.spec_element_size()),
    {
        proof {
            use_type_invariant(self);
            use_type_invariant(&self.id);
        }
        if start > end || end > self.count {
            return Err(Error::OutOfBounds);
        }
        let count = end - start;
        proof {
            assert(end * self.stride <= self.count * self.stride) by (nonlinear_arith)
                requires end <= self.count;
            assert(start * self.stride + count * self.stride == end * self.stride) by (nonlinear_arith)
                requires count == end - start;
            assert(start * self.stride >= 0 && count * self.stride >= 0) by (nonlinear_arith);
        }
        let offset = start * self.stride;
        let size = count * self.stride;
        Ok(BufferSlice {
            id: self.id,
            offset,
            size,
            count,
            element_size: self.element_size,
            stride: self.stride,
        })
    }

    /// The element at `ix`. In a uniform buffer it begins at
    /// `ix * ceil(element_size / alignment) * alignment`; in the other kinds at
    /// `ix * element_size`.
    pub fn at(&self, ix: usize) -> (r: Result<BufferSlice, Error>)
        ensures
            r is Ok <==> ix < self.spec_len(),
            r is Err ==> r matches Err(Error::OutOfBounds),
            r matches Ok(s) ==> s.spec_offset() == ix * self.spec_stride() && s.spec_count() == 1
                && s.spec_size() == self.spec_stride() && s.spec_id() == self.spec_id(),
            r matches Ok(s) ==> (self.spec_kind() == BufferKind::Uniform ==> s.spec_offset() == ix
                * (((self.spec_element_size() + self.spec_alignment() - 1) as nat / self.spec_alignment())
                * self.spec_alignment())),
            r matches Ok(s) ==> (self.spec_kind() != BufferKind::Uniform ==> s.spec_offset() == ix
                * self.spec_element_size()),
    {
        proof {
            use_type_invariant(self);
        }
        if ix >= self.count {
            return Err(Error::OutOfBounds);
        }
        let r = self.slice(ix, ix + 1);
        proof {
            assert(((ix + 1) - ix) as nat * self.spec_stride() == self.spec_stride()) by (nonlinear_arith);
        }
        r
    }

    /// Deletes the buffer object.
    pub fn delete(self, ctx: &mut Context)
        ensures
            final(ctx).slots() == old(ctx).slots(),
            final(ctx).spec_alignment() == old(ctx).spec_alignment(),
            final(ctx).restores() == old(ctx).restores(),
            final(ctx).wf() == old(ctx).wf(),
            final(ctx).pending() == old(ctx).pending().push(GlCall::DeleteBuffer { id: self.spec_id() }),
    {
        let id = self.id.get();
        ctx.push(GlCall::DeleteBuffer { id });
    }
}

/// A run of whole elements of a buffer, addressed in bytes.
#[derive(Debug, Clone, Copy)]
pub struct BufferSlice {
    id: BufferId,
    offset: usize,
    size: usize,
    count: usize,
    element_size: usize,
    stride: usize,
}

impl BufferSlice {
    #[verifier::type_invariant]
    spec fn inv(self) -> bool {
        &&& 0 < self.element_size <= self.stride
        &&& self.size == self.count * self.stride
        &&& self.offset + self.size <= usize::MAX
    }

    pub closed spec fn spec_id(&self) -> u32 {
        self.id@
    }

    pub closed spec fn spec_kind(&self) -> BufferKind {
        self.id.spec_kind()
    }

    /// Byte offset of the first element.
    pub closed spec fn spec_offset(&self) -> nat {
        self.offset as nat
    }

    /// Length in bytes.
    pub closed spec fn spec_size(&self) -> nat {
        self.size as nat
    }

    /// Number of elements.
    pub closed spec fn spec_count(&self) -> nat {
        self.count as nat
    }

    pub closed spec fn spec_element_size(&self) -> nat {
        self.element_size as nat
    }

    pub closed spec fn spec_stride(&self) -> nat {
        self.stride as nat
    }

    pub fn kind(&self) -> (r: BufferKind)
        ensures
            r == self.spec_kind(),
    {
        self.id.kind()
    }

    /// Raw handle of the buffer the slice is of.
    pub fn buffer_id(&self) -> (r: u32)
        ensures
            r == self.spec_id(),
    {
        self.id.get()
    }

    pub fn offset(&self) -> (r: usize)
        ensures
            r == self.spec_offset(),
    {
        self.offset
    }

    pub fn size(&self) -> (r: usize)
        ensures
            r == self.spec_size(),
    {
        self.size
    }

    /// Stride of the elements, which for uniform buffers is the aligned element size.
    pub fn alignment(&self) -> (r: usize)
        ensures
            r == self.spec_stride(),
            0 < self.spec_element_size() <= r,
            self.spec_size() == self.spec_count() * r,
    {
        proof {
            use_type_invariant(self);
        }
        self.stride
    }

    /// Binds the buffer and maps the slice for reading. The returned guard ends the mapping in
    /// [`MappedBufferData::unmap`].
    pub fn read(&self, ctx: &mut Context) -> (g: BindGuard)
        requires
            old(ctx).wf(),
        ensures
            final(ctx).wf(),
            final(ctx).spec_alignment() == old(ctx).spec_alignment(),
            final(ctx).restores() == old(ctx).restores(),
            g.point == BindingPoint::Buffer(self.spec_kind()),
            g.bound == self.spec_id(),
            g.previous == old(ctx).spec_current(g.point),
            final(ctx).slots() == crate::base::bound_in(old(ctx).slots(), g.point, self.spec_id()),
            final(ctx).pending() == old(ctx).pending() + seq![
                GlCall::Bind { point: g.point, id: self.spec_id() },
                GlCall::MapRead { kind: self.spec_kind(), offset: self.spec_offset() as usize, size: self.spec_size() as usize },
            ],
    {
        let kind = self.id.kind();
        let g = ctx.bind_raw(BindingPoint::Buffer(kind), self.id.get());
        ctx.push(GlCall::MapRead { kind, offset: self.offset, size: self.size });
        g
    }

    /// Writes `data`, a run of exactly `count` elements, over the slice.
    pub fn set_all(&self, ctx: &mut Context, data: &[u8]) -> (r: Result<(), Error>)
        requires
            old(ctx).wf(),
        ensures
            final(ctx).wf(),
            final(ctx).spec_alignment() == old(ctx).spec_alignment(),
            final(ctx).restores() == old(ctx).restores(),
            r is Ok <==> data@.len() == self.spec_count() * self.spec_element_size(),
            r is Ok ==> final(ctx).slots() == scoped_in(
                old(ctx).slots(),
                BindingPoint::Buffer(self.spec_kind()),
                self.spec_id(),
                old(ctx).restores(),
            ),
            r is Err ==> *final(ctx) == *old(ctx) && r matches Err(Error::DataLength { .. }),
            r is Ok ==> exists|write: GlCall|
                #[trigger] is_range_write(
                    write,
                    self.spec_kind(),
                    self.spec_offset(),
                    padded(data@, self.spec_element_size(), self.spec_stride()),
                ) && final(ctx).pending() == old(ctx).pending() + scoped_calls(
                    BindingPoint::Buffer(self.spec_kind()),
                    self.spec_id(),
                    old(ctx).spec_current(BindingPoint::Buffer(self.spec_kind())),
                    old(ctx).restores(),
                    seq![write],
                ),
    {
        proof {
            use_type_invariant(self);
        }
        if self.count > usize::MAX / self.element_size {
            proof {
                assert(self.count * self.element_size > usize::MAX) by (nonlinear_arith)
                    requires self.count > usize::MAX / self.element_size, self.element_size > 0;
            }
            return Err(Error::DataLength { expected: usize::MAX, actual: data.len() });
        }
        proof {
            assert(self.count * self.element_size <= usize::MAX) by (nonlinear_arith)
                requires self.count <= usize::MAX / self.element_size, self.element_size > 0;
        }
        let expected = self.count * self.element_size;
        if data.len() != expected {
            return Err(Error::DataLength { expected, actual: data.len() });
        }
        let bytes = pad_elements(data, self.element_size, self.stride);
        let kind = self.id.kind();
        let write = GlCall::WriteRange { kind, offset: self.offset, bytes };
        let ghost g_write = write;
        ctx.run_bound(BindingPoint::Buffer(kind), self.id.get(), vec![write]);
        assert(is_range_write(g_write, self.spec_kind(), self.spec_offset(), padded(data@, self.spec_element_size(), self.spec_stride()))
            && ctx.pending() == old(ctx).pending() + scoped_calls(
                BindingPoint::Buffer(kind),
                self.id@,
                old(ctx).spec_current(BindingPoint::Buffer(kind)),
                old(ctx).restores(),
                seq![g_write],
            ));
        Ok(())
    }

    /// Writes the single element `value` at index `at` of the slice.
    pub fn set(&self, ctx: &mut Context, at: usize, value: &[u8]) -> (r: Result<(), Error>)
        requires
            old(ctx).wf(),
        ensures
            final(ctx).wf(),
            final(ctx).spec_alignment() == old(ctx).spec_alignment(),
            final(ctx).restores() == old(ctx).restores(),
            r is Ok <==> at < self.spec_count() && value@.len() == self.spec_element_size(),
            r is Ok ==> final(ctx).slots() == scoped_in(
                old(ctx).slots(),
                BindingPoint::Buffer(self.spec_kind()),
                self.spec_id(),
                old(ctx).restores(),
            ),
            r is Err ==> *final(ctx) == *old(ctx),
            r is Ok ==> exists|write: GlCall|
                #[trigger] is_range_write(
                    write,
                    self.spec_kind(),
                    (self.spec_offset() + at * self.spec_stride()) as nat,
                    padded(value@, self.spec_element_size(), self.spec_stride()),
                ) && final(ctx).pending() == old(ctx).pending() + scoped_calls(
                    BindingPoint::Buffer(self.spec_kind()),
                    self.spec_id(),
                    old(ctx).spec_current(BindingPoint::Buffer(self.spec_kind())),
                    old(ctx).restores(),
                    seq![write],
                ),
    {
        proof {
            use_type_invariant(self);
        }
        if at >= self.count {
            return Err(Error::OutOfBounds);
        }
        if value.len() != self.element_size {
            return Err(Error::DataLength { expected: self.element_size, actual: value.len() });
        }
        proof {
            assert(at * self.stride < self.count * self.stride) by (nonlinear_arith)
                requires at < self.count, self.stride > 0;
            assert(at * self.stride >= 0) by (nonlinear_arith);
        }
        let offset = self.offset + at * self.stride;
        let bytes = pad_elements(value, self.element_size, self.stride);
        let kind = self.id.kind();
        let write = GlCall::WriteRange { kind, offset, bytes };
        let ghost g_write = write;
        ctx.run_bound(BindingPoint::Buffer(kind), self.id.get(), vec![write]);
        assert(is_range_write(g_write, self.spec_kind(), (self.spec_offset() + at * self.spec_stride()) as nat, padded(value@, self.spec_element_size(), self.spec_stride()))
            && ctx.pending() == old(ctx).pending() + scoped_calls(
                BindingPoint::Buffer(kind),
                self.id@,
                old(ctx).spec_current(BindingPoint::Buffer(kind)),
                old(ctx).restores(),
                seq![g_write],
            ));
        Ok(())
    }
}

/// The elements of a slice mapped for reading, with the mapping's binding still held.
#[derive(Debug)]
pub struct MappedBufferData {
    kind: BufferKind,
    guard: BindGuard,
    data: Vec<u8>,
}

impl MappedBufferData {
    pub closed spec fn spec_data(&self) -> Seq<u8> {
        self.data@
    }

    pub closed spec fn spec_guard(&self) -> BindGuard {
        self.guard
    }

    pub closed spec fn spec_kind(&self) -> BufferKind {
        self.kind
    }

    /// The elements in `mapped`, the bytes the driver exposed for `slice`; padding is dropped.
    /// `guard` is what [`BufferSlice::read`] returned.
    pub fn new(slice: &BufferSlice, guard: BindGuard, mapped: &[u8]) -> (r: Result<MappedBufferData, Error>)
        ensures
            r is Ok <==> mapped@.len() == slice.spec_size(),
            r is Err ==> r matches Err(Error::DataLength { .. }),
            r matches Ok(m) ==> m.spec_data() == unpadded(mapped@, slice.spec_element_size(), slice.spec_stride())
                && m.spec_data().len() == slice.spec_count() * slice.spec_element_size()
                && m.spec_guard() == guard && m.spec_kind() == slice.spec_kind(),
    {
        proof {
            use_type_invariant(slice);
        }
        if mapped.len() != slice.size {
            return Err(Error::DataLength { expected: slice.size, actual: mapped.len() });
        }
        let data = unpad_elements(mapped, slice.element_size, slice.stride);
        proof {
            lemma_unpadded_len(mapped@, slice.element_size as nat, slice.stride as nat, slice.count as nat);
        }
        Ok(MappedBufferData { kind: slice.id.kind(), guard, data })
    }

    /// The mapped elements.
    pub fn data(&self) -> (r: &[u8])
        ensures
            r@ == self.spec_data(),
    {
        self.data.as_slice()
    }

    /// Ends the mapping and the binding that held it.
    pub fn unmap(self, ctx: &mut Context)
        requires
            old(ctx).wf(),
        ensures
            final(ctx).wf(),
            final(ctx).slots() == crate::base::released_in(old(ctx).slots(), self.spec_guard(), old(ctx).restores()),
            final(ctx).spec_alignment() == old(ctx).spec_alignment(),
            final(ctx).restores() == old(ctx).restores(),
            final(ctx).pending() == old(ctx).pending() + seq![GlCall::Unmap { kind: self.spec_kind() }]
                + release_calls(self.spec_guard(), old(ctx).restores()),
    {
        ctx.push(GlCall::Unmap { kind: self.kind });
        ctx.release(self.guard);
        assert(ctx.pending() =~= old(ctx).pending() + seq![GlCall::Unmap { kind: self.kind }]
            + release_calls(self.guard, old(ctx).restores()));
    }
}

/// `count` elements laid `stride` bytes apart hold `count * size` bytes of data.
proof fn lemma_unpadded_len(bytes: Seq<u8>, size: nat, stride: nat, count: nat)
    requires
        0 < size <= stride,
        bytes.len() == count * stride,
    ensures
        unpadded(bytes, size, stride).len() == count * size,
    decreases count,
{
    if count == 0 {
        assert(bytes.len() == 0 && count * size == 0) by (nonlinear_arith)
            requires bytes.len() == count * stride, count == 0;
    } else {
        assert(bytes.len() >= stride) by (nonlinear_arith)
            requires bytes.len() == count * stride, count > 0;
        assert((count - 1) as nat * stride == count * stride - stride) by (nonlinear_arith)
            requires count > 0;
        assert((count - 1) as nat * size == count * size - size) by (nonlinear_arith)
            requires count > 0;
        lemma_unpadded_len(bytes.skip(stride as int), size, stride, (count - 1) as nat);
    }
}

} // verus!
