use vstd::prelude::*;

use crate::error::{result_view, GlError, GlErrorView, GlObject};
use crate::gl::{
    bindings_after, created, group_bindings, is_created, unbound, BufferTarget, GlCall, Reply, WebGl,
};

verus! {

/// A buffer object together with the elements uploaded into it. The elements
/// are kept, unchanged, to size draw calls; new content takes a new buffer.
pub struct GlBuffer<T> {
    id: u32,
    target: BufferTarget,
    array: Vec<T>,
}

/// What a buffer is: its object id, its target and the uploaded elements.
pub struct BufferView<T> {
    pub id: u32,
    pub target: BufferTarget,
    pub elements: Seq<T>,
}

impl<T> View for GlBuffer<T> {
    type V = BufferView<T>;

    closed spec fn view(&self) -> BufferView<T> {
        BufferView { id: self.id, target: self.target, elements: self.array@ }
    }
}

/// The calls that create buffer object `id`, upload the elements into it at
/// `target` as static data, and unbind it again. The host answers the
/// creation.
pub open spec fn upload_calls(id: u32, target: BufferTarget) -> Seq<GlCall> {
    seq![
        GlCall::CreateBuffer { buffer: id },
        GlCall::BindBuffer { target, buffer: Some(id) },
        GlCall::BufferData { target, buffer: id },
        GlCall::BindBuffer { target, buffer: None },
    ]
}

/// Issues the calls that upload elements into buffer `id` at `target`.
pub fn upload_buffer(gl: &mut WebGl, id: u32, target: BufferTarget)
    ensures
        final(gl).calls@ == old(gl).calls@ + upload_calls(id, target),
        final(gl).next_id == old(gl).next_id,
{
    let mut calls: Vec<GlCall> = Vec::new();
    calls.push(GlCall::CreateBuffer { buffer: id });
    calls.push(GlCall::BindBuffer { target, buffer: Some(id) });
    calls.push(GlCall::BufferData { target, buffer: id });
    calls.push(GlCall::BindBuffer { target, buffer: None });
    assert(calls@ =~= upload_calls(id, target));
    gl.issue_all(calls);
}

impl<T> GlBuffer<T> {
    /// The buffer that the reply to `upload_calls(id, target)` gives for
    /// `array`: there only where the object was created.
    pub fn new(id: u32, target: BufferTarget, array: Vec<T>, replies: &Vec<Reply>) -> (r: Result<
        GlBuffer<T>,
        GlError,
    >)
        ensures
            created(replies@, 0) ==> r is Ok && r->Ok_0@ == (BufferView { id, target, elements: array@ }),
            !created(replies@, 0) ==> result_view(r) == Err::<GlBuffer<T>, GlErrorView>(
                GlErrorView::ResourceCreation(GlObject::Buffer),
            ),
    {
        if is_created(replies, 0) {
            Ok(GlBuffer { id, target, array })
        } else {
            Err(GlError::ResourceCreation(GlObject::Buffer))
        }
    }

    /// Binds this buffer at its target.
    pub fn bind(&self, gl: &mut WebGl)
        ensures
            final(gl).calls@ == old(gl).calls@.push(
                GlCall::BindBuffer { target: self@.target, buffer: Some(self@.id) },
            ),
            final(gl).next_id == old(gl).next_id,
    {
        gl.issue(GlCall::BindBuffer { target: self.target, buffer: Some(self.id) });
    }

    /// Leaves nothing bound at this buffer's target.
    pub fn unbind(&self, gl: &mut WebGl)
        ensures
            final(gl).calls@ == old(gl).calls@.push(
                GlCall::BindBuffer { target: self@.target, buffer: None },
            ),
            final(gl).next_id == old(gl).next_id,
    {
        gl.issue(GlCall::BindBuffer { target: self.target, buffer: None });
    }

    /// The buffer object's id.
    pub fn id(&self) -> (r: u32)
        ensures
            r == self@.id,
    {
        self.id
    }

    /// Where the buffer binds.
    pub fn target(&self) -> (r: BufferTarget)
        ensures
            r == self@.target,
    {
        self.target
    }

    /// The uploaded elements.
    pub fn array(&self) -> (r: &Vec<T>)
        ensures
            r@ == self@.elements,
    {
        &self.array
    }

    /// The number of uploaded elements.
    pub fn element_count(&self) -> (n: usize)
        ensures
            n == self@.elements.len(),
    {
        self.array.len()
    }
}

/// An upload unbinds what it binds: performed with nothing bound, it leaves
/// nothing bound.
pub proof fn upload_leaves_nothing_bound(id: u32, target: BufferTarget)
    ensures
        bindings_after(unbound(), upload_calls(id, target)) == unbound(),
{
    broadcast use group_bindings;

    let b = unbound();
    let s1 = Seq::<GlCall>::empty().push(GlCall::CreateBuffer { buffer: id });
    let s2 = s1.push(GlCall::BindBuffer { target, buffer: Some(id) });
    let s3 = s2.push(GlCall::BufferData { target, buffer: id });
    let s4 = s3.push(GlCall::BindBuffer { target, buffer: None });
    assert(bindings_after(b, s1) == b);
    assert(bindings_after(b, s3) == bindings_after(b, s2));
    assert(upload_calls(id, target) =~= s4);
}

} // verus!
