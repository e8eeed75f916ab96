use vstd::prelude::*;

use crate::buffer::BufferKind;
use crate::calls::GlCall;
use crate::texture::TexTarget;

verus! {

/// Number of binding points of the driver that the library tracks.
pub const NUM_BINDING_POINTS: usize = 24;

/// A slot of the driver's global state that holds at most one current object.
#[derive(Debug, Clone, Copy, PartialEq, Eq, Structural)]
pub enum BindingPoint {
    Buffer(BufferKind),
    Texture(TexTarget),
    Program,
    Framebuffer,
    VertexArray,
}

/// Index of a binding point in the context's table.
pub open spec fn slot_of(p: BindingPoint) -> nat {
    match p {
        BindingPoint::Buffer(k) => k.spec_index(),
        BindingPoint::Texture(t) => 14 + t.spec_index(),
        BindingPoint::Program => 21,
        BindingPoint::Framebuffer => 22,
        BindingPoint::VertexArray => 23,
    }
}

/// Distinct binding points occupy distinct slots.
pub proof fn lemma_slot_injective(p: BindingPoint, q: BindingPoint)
    ensures
        slot_of(p) < NUM_BINDING_POINTS,
        slot_of(p) == slot_of(q) ==> p == q,
{
}

pub fn slot(p: BindingPoint) -> (r: usize)
    ensures
        r == slot_of(p),
        r < NUM_BINDING_POINTS,
{
    match p {
        BindingPoint::Buffer(k) => k.index(),
        BindingPoint::Texture(t) => 14 + t.index(),
        BindingPoint::Program => 21,
        BindingPoint::Framebuffer => 22,
        BindingPoint::VertexArray => 23,
    }
}

/// The identifier a raw handle stands for: `0` means nothing is bound.
pub open spec fn id_of_raw(raw: u32) -> Option<u32> {
    if raw == 0 {
        None
    } else {
        Some(raw)
    }
}

/// The raw handle that restores an optional identifier.
pub open spec fn raw_of_id(id: Option<u32>) -> u32 {
    match id {
        Some(v) => v,
        None => 0,
    }
}

/// The current identifier at `p` in a binding table.
pub open spec fn current_in(slots: Seq<u32>, p: BindingPoint) -> Option<u32> {
    id_of_raw(slots[slot_of(p) as int])
}

/// The binding table after `id` was made current at `p`.
pub open spec fn bound_in(slots: Seq<u32>, p: BindingPoint, id: u32) -> Seq<u32> {
    slots.update(slot_of(p) as int, id)
}

/// The binding table of a fresh driver context: nothing bound anywhere.
pub open spec fn clean_slots() -> Seq<u32> {
    Seq::new(NUM_BINDING_POINTS as nat, |i: int| 0u32)
}

/// Explicit handle on the driver context.
///
/// It tracks what is current at every binding point, caches the uniform-buffer offset alignment
/// that the driver reported, and queues the driver calls that the library decided, in order.
pub struct Context {
    slots: Vec<u32>,
    alignment: usize,
    restore: bool,
    calls: Vec<GlCall>,
}

impl Context {
    /// The binding table.
    pub closed spec fn slots(&self) -> Seq<u32> {
        self.slots@
    }

    /// The uniform-buffer offset alignment of the driver.
    pub closed spec fn spec_alignment(&self) -> nat {
        self.alignment as nat
    }

    /// Whether releasing a guard restores the previous binding.
    pub closed spec fn restores(&self) -> bool {
        self.restore
    }

    /// The driver calls queued so far, oldest first.
    pub closed spec fn pending(&self) -> Seq<GlCall> {
        self.calls@
    }

    pub closed spec fn wf(&self) -> bool {
        &&& self.slots@.len() == NUM_BINDING_POINTS
        &&& self.alignment > 0
    }

    /// A well-formed context tracks every binding point.
    pub proof fn lemma_wf(&self)
        requires
            self.wf(),
        ensures
            self.slots().len() == NUM_BINDING_POINTS,
            self.spec_alignment() > 0,
    {
    }

    /// The identifier current at `p`, `None` when nothing is.
    pub open spec fn spec_current(&self, p: BindingPoint) -> Option<u32> {
        current_in(self.slots(), p)
    }

    /// A context on which nothing is bound yet. `alignment` is the driver's uniform-buffer
    /// offset alignment; `restore` selects whether releasing a binding restores the previous one.
    pub fn new(alignment: usize, restore: bool) -> (r: Context)
        requires
            alignment > 0,
        ensures
            r.wf(),
            r.slots() == clean_slots(),
            r.spec_alignment() == alignment,
            r.restores() == restore,
            r.pending() == Seq::<GlCall>::empty(),
            forall|p: BindingPoint| r.spec_current(p) == None::<u32>,
    {
        let mut slots: Vec<u32> = Vec::new();
        let mut i: usize = 0;
        while i < NUM_BINDING_POINTS
            invariant
                i <= NUM_BINDING_POINTS,
                slots@ == Seq::new(i as nat, |j: int| 0u32),
            decreases NUM_BINDING_POINTS - i,
        {
            slots.push(0);
            i = i + 1;
        }
        assert(slots@ =~= clean_slots());
        let r = Context { slots, alignment, restore, calls: Vec::new() };
        assert forall|p: BindingPoint| r.spec_current(p) == None::<u32> by {
            lemma_slot_injective(p, p);
        }
        r
    }

    /// The uniform-buffer offset alignment of the driver.
    pub fn alignment(&self) -> (r: usize)
        requires
            self.wf(),
        ensures
            r == self.spec_alignment(),
            r > 0,
    {
        self.alignment
    }

    /// Whether releasing a guard restores the previous binding.
    pub fn restore_on_release(&self) -> (r: bool)
        ensures
            r == self.restores(),
    {
        self.restore
    }

    /// The identifier current at `p`, `None` when nothing is.
    pub fn current(&self, p: BindingPoint) -> (r: Option<u32>)
        requires
            self.wf(),
        ensures
            r == self.spec_current(p),
    {
        let s = slot(p);
        let raw = self.slots[s];
        if raw == 0 {
            None
        } else {
            Some(raw)
        }
    }

    /// Queues one driver call.
    pub fn push(&mut self, call: GlCall)
        ensures
            final(self).slots() == old(self).slots(),
            final(self).spec_alignment() == old(self).spec_alignment(),
            final(self).restores() == old(self).restores(),
            final(self).wf() == old(self).wf(),
            final(self).pending() == old(self).pending().push(call),
    {
        self.calls.push(call);
    }

    /// Queues driver calls, in order.
    pub fn push_all(&mut self, calls: Vec<GlCall>)
        ensures
            final(self).slots() == old(self).slots(),
            final(self).spec_alignment() == old(self).spec_alignment(),
            final(self).restores() == old(self).restores(),
            final(self).wf() == old(self).wf(),
            final(self).pending() == old(self).pending() + calls@,
    {
        let mut calls = calls;
        self.calls.append(&mut calls);
    }

    /// Hands the queued driver calls over, oldest first, and empties the queue.
    pub fn take_calls(&mut self) -> (r: Vec<GlCall>)
        ensures
            r@ == old(self).pending(),
            final(self).slots() == old(self).slots(),
            final(self).spec_alignment() == old(self).spec_alignment(),
            final(self).restores() == old(self).restores(),
            final(self).wf() == old(self).wf(),
            final(self).pending() == Seq::<GlCall>::empty(),
    {
        let mut out: Vec<GlCall> = Vec::new();
        std::mem::swap(&mut out, &mut self.calls);
        out
    }

    /// Makes `id` current at `p`, queueing the driver call, and returns the guard that remembers
    /// what was current before.
    pub fn bind_raw(&mut self, p: BindingPoint, id: u32) -> (g: BindGuard)
        requires
            old(self).wf(),
        ensures
            final(self).wf(),
            final(self).slots() == bound_in(old(self).slots(), p, id),
            final(self).spec_alignment() == old(self).spec_alignment(),
            final(self).restores() == old(self).restores(),
            final(self).pending() == old(self).pending().push(GlCall::Bind { point: p, id }),
            g.point == p,
            g.bound == id,
            g.previous == old(self).spec_current(p),
    {
        let previous = self.current(p);
        let s = slot(p);
        self.slots.set(s, id);
        self.calls.push(GlCall::Bind { point: p, id });
        BindGuard { point: p, previous, bound: id }
    }

    /// Runs `body` with `id` current at `p`: queues the binding, the calls of `body`, and the
    /// restoring of what was current before.
    pub fn run_bound(&mut self, p: BindingPoint, id: u32, body: Vec<GlCall>)
        requires
            old(self).wf(),
        ensures
            final(self).wf(),
            final(self).slots() == scoped_in(old(self).slots(), p, id, old(self).restores()),
            final(self).spec_alignment() == old(self).spec_alignment(),
            final(self).restores() == old(self).restores(),
            final(self).pending() == old(self).pending() + scoped_calls(
                p,
                id,
                old(self).spec_current(p),
                old(self).restores(),
                body@,
            ),
    {
        let g = self.bind_raw(p, id);
        let mut body = body;
        let ghost calls = body@;
        self.calls.append(&mut body);
        self.release(g);
        assert(self.calls@ =~= old(self).pending() + scoped_calls(
            p,
            id,
            old(self).spec_current(p),
            old(self).restores(),
            calls,
        ));
    }

    /// Makes the resource current at its binding point.
    pub fn bind<R: Resource>(&mut self, r: &R) -> (g: BindGuard)
        requires
            old(self).wf(),
        ensures
            final(self).wf(),
            final(self).slots() == bound_in(old(self).slots(), r.spec_point(), r.spec_id()),
            final(self).spec_alignment() == old(self).spec_alignment(),
            final(self).restores() == old(self).restores(),
            final(self).pending() == old(self).pending().push(
                GlCall::Bind { point: r.spec_point(), id: r.spec_id() },
            ),
            g.point == r.spec_point(),
            g.bound == r.spec_id(),
            g.previous == old(self).spec_current(r.spec_point()),
    {
        let p = r.binding_point();
        let id = r.id();
        self.bind_raw(p, id)
    }

    /// Ends a binding: puts back what was current before it, unless the context does not restore
    /// bindings, or the binding was the default framebuffer, whose unbinding does nothing.
    pub fn release(&mut self, g: BindGuard)
        requires
            old(self).wf(),
        ensures
            final(self).wf(),
            final(self).slots() == released_in(old(self).slots(), g, old(self).restores()),
            final(self).spec_alignment() == old(self).spec_alignment(),
            final(self).restores() == old(self).restores(),
            final(self).pending() == if releases(g, old(self).restores()) {
                old(self).pending().push(GlCall::Bind { point: g.point, id: raw_of_id(g.previous) })
            } else {
                old(self).pending()
            },
    {
        let is_backbuffer = match g.point {
            BindingPoint::Framebuffer => g.bound == 0,
            _ => false,
        };
        if self.restore && !is_backbuffer {
            let raw = match g.previous {
                Some(v) => v,
                None => 0,
            };
            let s = slot(g.point);
            self.slots.set(s, raw);
            self.calls.push(GlCall::Bind { point: g.point, id: raw });
        }
    }
}

/// Whether releasing `g` issues a driver call.
pub open spec fn releases(g: BindGuard, restore: bool) -> bool {
    restore && !(g.point == BindingPoint::Framebuffer && g.bound == 0)
}

/// The driver calls that releasing `g` issues.
pub open spec fn release_calls(g: BindGuard, restore: bool) -> Seq<GlCall> {
    if releases(g, restore) {
        seq![GlCall::Bind { point: g.point, id: raw_of_id(g.previous) }]
    } else {
        Seq::empty()
    }
}

/// The binding table after `g` was released.
pub open spec fn released_in(slots: Seq<u32>, g: BindGuard, restore: bool) -> Seq<u32> {
    if releases(g, restore) {
        slots.update(slot_of(g.point) as int, raw_of_id(g.previous))
    } else {
        slots
    }
}

/// Binding a resource makes its identifier current at its binding point; releasing that binding
/// gives back whatever was current before, which on a fresh context is nothing.
pub proof fn lemma_bind_release_restores(slots: Seq<u32>, p: BindingPoint, id: u32)
    requires
        slots.len() == NUM_BINDING_POINTS,
        id != 0,
    ensures
        current_in(bound_in(slots, p, id), p) == Some(id),
        current_in(
            released_in(
                bound_in(slots, p, id),
                BindGuard { point: p, previous: current_in(slots, p), bound: id },
                true,
            ),
            p,
        ) == current_in(slots, p),
        current_in(clean_slots(), p) == None::<u32>,
{
    lemma_slot_injective(p, p);
}

/// Nested bindings of one binding point: after binding `a`, then `b`, then releasing `b`, the
/// current identifier is `a` again, not the empty sentinel.
pub proof fn lemma_nested_binding_restores_outer(slots: Seq<u32>, p: BindingPoint, a: u32, b: u32)
    requires
        slots.len() == NUM_BINDING_POINTS,
        a != 0,
        b != 0,
    ensures
        ({
            let s1 = bound_in(slots, p, a);
            let s2 = bound_in(s1, p, b);
            let inner = BindGuard { point: p, previous: current_in(s1, p), bound: b };
            &&& current_in(s2, p) == Some(b)
            &&& current_in(released_in(s2, inner, true), p) == Some(a)
        }),
{
    lemma_slot_injective(p, p);
}

/// A binding changes nothing at the other binding points.
pub proof fn lemma_bind_is_local(slots: Seq<u32>, p: BindingPoint, q: BindingPoint, id: u32)
    requires
        slots.len() == NUM_BINDING_POINTS,
        p != q,
    ensures
        current_in(bound_in(slots, p, id), q) == current_in(slots, q),
{
    lemma_slot_injective(p, q);
    lemma_slot_injective(q, p);
}

/// The binding table after a binding of `id` at `p` began and ended.
pub open spec fn scoped_in(slots: Seq<u32>, p: BindingPoint, id: u32, restore: bool) -> Seq<u32> {
    released_in(
        bound_in(slots, p, id),
        BindGuard { point: p, previous: current_in(slots, p), bound: id },
        restore,
    )
}

/// The driver calls of running `body` with `id` current at `p`, when `previous` was current.
pub open spec fn scoped_calls(
    p: BindingPoint,
    id: u32,
    previous: Option<u32>,
    restore: bool,
    body: Seq<GlCall>,
) -> Seq<GlCall> {
    let g = BindGuard { point: p, previous, bound: id };
    seq![GlCall::Bind { point: p, id }] + body + if releases(g, restore) {
        seq![GlCall::Bind { point: p, id: raw_of_id(previous) }]
    } else {
        Seq::empty()
    }
}

/// A binding that began and ended leaves the whole binding table as it found it, when the
/// context restores bindings and the binding was not of the default framebuffer.
pub proof fn lemma_scoped_binding_leaves_table(slots: Seq<u32>, p: BindingPoint, id: u32)
    requires
        slots.len() == NUM_BINDING_POINTS,
        !(p == BindingPoint::Framebuffer && id == 0),
    ensures
        scoped_in(slots, p, id, true) == slots,
{
    lemma_slot_injective(p, p);
    assert(scoped_in(slots, p, id, true) =~= slots);
}

/// The binding table after `first` was bound, then `second`, then `first` released, then
/// `second` released: the order that keeps an element buffer attached to a vertex array.
pub open spec fn paired_slots(
    slots: Seq<u32>,
    first: BindingPoint,
    first_id: u32,
    second: BindingPoint,
    second_id: u32,
    restore: bool,
) -> Seq<u32> {
    let s2 = bound_in(bound_in(slots, first, first_id), second, second_id);
    let s3 = released_in(s2, BindGuard { point: first, previous: current_in(slots, first), bound: first_id }, restore);
    released_in(s3, BindGuard { point: second, previous: current_in(slots, second), bound: second_id }, restore)
}

/// Two bindings of distinct points, both released, leave the table as they found it when the
/// context restores bindings and neither is of the default framebuffer.
pub proof fn lemma_paired_binding_leaves_table(
    slots: Seq<u32>,
    first: BindingPoint,
    first_id: u32,
    second: BindingPoint,
    second_id: u32,
)
    requires
        slots.len() == NUM_BINDING_POINTS,
        first != second,
        !(first == BindingPoint::Framebuffer && first_id == 0),
        !(second == BindingPoint::Framebuffer && second_id == 0),
    ensures
        paired_slots(slots, first, first_id, second, second_id, true) == slots,
{
    lemma_slot_injective(first, second);
    lemma_slot_injective(second, first);
    assert(paired_slots(slots, first, first_id, second, second_id, true) =~= slots);
}

/// Scope of one binding: what it made current, and what was current before it.
#[derive(Debug, Clone, Copy, PartialEq, Eq, Structural)]
pub struct BindGuard {
    pub point: BindingPoint,
    pub previous: Option<u32>,
    pub bound: u32,
}

/// A driver object that occupies a binding point.
pub trait Resource {
    /// The object's raw driver handle.
    spec fn spec_id(&self) -> u32;

    /// The binding point the object occupies.
    spec fn spec_point(&self) -> BindingPoint;

    fn id(&self) -> (r: u32)
        ensures
            r == self.spec_id(),
    ;

    fn binding_point(&self) -> (r: BindingPoint)
        ensures
            r == self.spec_point(),
    ;
}

/// Scoped use of a resource: the binding protocol for every [`Resource`].
pub trait ResourceExt: Resource {
    /// Runs `body` with the resource current at its binding point, and restores what was
    /// current before.
    fn with_binding(&self, ctx: &mut Context, body: Vec<GlCall>)
        requires
            old(ctx).wf(),
        ensures
            final(ctx).wf(),
            final(ctx).slots() == scoped_in(old(ctx).slots(), self.spec_point(), self.spec_id(), old(ctx).restores()),
            final(ctx).spec_alignment() == old(ctx).spec_alignment(),
            final(ctx).restores() == old(ctx).restores(),
            final(ctx).pending() == old(ctx).pending() + scoped_calls(
                self.spec_point(),
                self.spec_id(),
                old(ctx).spec_current(self.spec_point()),
                old(ctx).restores(),
                body@,
            ),
    {
        let p = self.binding_point();
        let id = self.id();
        ctx.run_bound(p, id, body);
    }
}

impl<R: Resource> ResourceExt for R {}

} // verus!
