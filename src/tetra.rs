use vstd::multiset::Multiset;
use vstd::prelude::*;

use crate::error::{result_view, GlError, GlErrorView, GlObject, Resource};
use crate::gl::{
    bindings_after, created, deletion, deletions, flag_set, found, group_bindings, group_deletions, lemma_deletions_push, lemma_bindings_after_concat, Bindings, is_created, location_at, unbound, uploaded,
    Attribute, BufferTarget, FrameMatrix, GlCall, Reply, Stage, Uniform, UniformLoc, WebGl,
};
use crate::gl_buffer::{upload_buffer, upload_calls, BufferView, GlBuffer};
use crate::program::{link_calls, link_program, program_result, Program};
use crate::program_info::{
    info_result, reflect_calls, reflect_program, required_attributes, required_uniforms, third,
    Features, ProgramInfo,
};
use crate::shader::{compile_calls, compile_result, compile_shader, Shader};
use crate::texture::{texture_calls, upload_texture, Texture2D};

verus! {

/// The three per-vertex buffers.
#[derive(Clone, Copy, Debug, PartialEq, Eq, Structural)]
pub enum VertexSlot {
    Position,
    Normal,
    TexCoord,
}

/// A renderer of one mesh. It owns its side of the graphics context and
/// every object it created there; `V` is the vertex component type.
///
/// It is built step by step: shaders, then the program, then the mesh's
/// buffers and texture. A step that needs answers from the context hands
/// back an `Awaiting`, which the host resumes with the replies once it has
/// performed the issued calls. A failed step ends the renderer and hands
/// back the calls that release everything it owned.
///
/// Each vertex attribute is read from a buffer of its own, tightly packed:
/// three components per position and per normal, two per texture
/// coordinate.
pub struct Tetra<V> {
    gl: WebGl,
    viewport_size: (u32, u32),
    features: Features,
    shaders: Vec<Shader>,
    program: Option<Program>,
    program_info: Option<ProgramInfo>,
    vert_buffer: Option<GlBuffer<V>>,
    normal_buffer: Option<GlBuffer<V>>,
    tex_coord_buffer: Option<GlBuffer<V>>,
    element_buffer: Option<GlBuffer<u16>>,
    texture: Option<Texture2D>,
}

/// What a renderer is: the calls issued and not yet taken, the next object
/// id, its configuration and the objects it owns.
pub struct TetraView<V> {
    pub calls: Seq<GlCall>,
    pub next_id: u32,
    pub viewport_size: (u32, u32),
    pub features: Features,
    pub shaders: Seq<Shader>,
    pub program: Option<Program>,
    pub program_info: Option<ProgramInfo>,
    pub vert_buffer: Option<GlBuffer<V>>,
    pub normal_buffer: Option<GlBuffer<V>>,
    pub tex_coord_buffer: Option<GlBuffer<V>>,
    pub element_buffer: Option<GlBuffer<u16>>,
    pub texture: Option<Texture2D>,
}

impl<V> View for Tetra<V> {
    type V = TetraView<V>;

    closed spec fn view(&self) -> TetraView<V> {
        TetraView {
            calls: self.gl.calls@,
            next_id: self.gl.next_id,
            viewport_size: self.viewport_size,
            features: self.features,
            shaders: self.shaders@,
            program: self.program,
            program_info: self.program_info,
            vert_buffer: self.vert_buffer,
            normal_buffer: self.normal_buffer,
            tex_coord_buffer: self.tex_coord_buffer,
            element_buffer: self.element_buffer,
            texture: self.texture,
        }
    }
}

/// A build step that failed: why, and the calls that the host still has to
/// perform, ending with the release of every object of the renderer.
pub struct Failure {
    pub error: GlError,
    pub calls: Vec<GlCall>,
}

/// What a renderer waits for the host's replies about.
#[allow(inconsistent_fields)]
pub enum Awaited<V> {
    Shader { id: u32, stage: Stage },
    Program { id: u32, shaders: Vec<Shader> },
    VertexBuffer { slot: VertexSlot, id: u32, array: Vec<V> },
    IndexBuffer { id: u32, array: Vec<u16> },
    Texture { id: u32, width: u32, height: u32 },
}

/// A renderer between issuing a step's calls and learning their outcome.
pub struct Awaiting<V> {
    tetra: Tetra<V>,
    awaited: Awaited<V>,
}

/// The renderer as it waits, and what it waits for.
pub struct AwaitingView<V> {
    pub tetra: TetraView<V>,
    pub awaited: Awaited<V>,
}

impl<V> View for Awaiting<V> {
    type V = AwaitingView<V>;

    closed spec fn view(&self) -> AwaitingView<V> {
        AwaitingView { tetra: self.tetra@, awaited: self.awaited }
    }
}

/// Deleting each shader, in order.
pub open spec fn shader_deletes(shaders: Seq<Shader>) -> Seq<GlCall> {
    shaders.map_values(|s: Shader| GlCall::DeleteShader { shader: s.id })
}

/// Deleting the program, if there is one.
pub open spec fn program_delete(p: Option<Program>) -> Seq<GlCall> {
    match p {
        Some(p) => seq![GlCall::DeleteProgram { program: p.id }],
        None => seq![],
    }
}

/// Deleting the buffer, if there is one.
pub open spec fn buffer_delete<T>(b: Option<GlBuffer<T>>) -> Seq<GlCall> {
    match b {
        Some(b) => seq![GlCall::DeleteBuffer { buffer: b@.id }],
        None => seq![],
    }
}

/// Deleting the texture, if there is one.
pub open spec fn texture_delete(t: Option<Texture2D>) -> Seq<GlCall> {
    match t {
        Some(t) => seq![GlCall::DeleteTexture { texture: t.id }],
        None => seq![],
    }
}

/// The calls that delete every object the renderer owns, once each.
pub open spec fn release_calls<V>(t: TetraView<V>) -> Seq<GlCall> {
    shader_deletes(t.shaders) + program_delete(t.program) + buffer_delete(t.vert_buffer)
        + buffer_delete(t.normal_buffer) + buffer_delete(t.tex_coord_buffer) + buffer_delete(
        t.element_buffer,
    ) + texture_delete(t.texture)
}

/// The buffer in a vertex slot.
pub open spec fn slot_buffer<V>(t: TetraView<V>, slot: VertexSlot) -> Option<GlBuffer<V>> {
    match slot {
        VertexSlot::Position => t.vert_buffer,
        VertexSlot::Normal => t.normal_buffer,
        VertexSlot::TexCoord => t.tex_coord_buffer,
    }
}

/// Same configuration and same next object id.
pub open spec fn same_setup<V>(a: TetraView<V>, b: TetraView<V>) -> bool {
    &&& a.features == b.features
    &&& a.viewport_size == b.viewport_size
    &&& a.next_id == b.next_id
}

/// Same program and slots.
pub open spec fn same_program<V>(a: TetraView<V>, b: TetraView<V>) -> bool {
    a.program == b.program && a.program_info == b.program_info
}

/// Same buffers and texture.
pub open spec fn same_mesh<V>(a: TetraView<V>, b: TetraView<V>) -> bool {
    &&& a.vert_buffer == b.vert_buffer
    &&& a.normal_buffer == b.normal_buffer
    &&& a.tex_coord_buffer == b.tex_coord_buffer
    &&& a.element_buffer == b.element_buffer
    &&& a.texture == b.texture
}

/// Same objects owned.
pub open spec fn same_objects<V>(a: TetraView<V>, b: TetraView<V>) -> bool {
    a.shaders == b.shaders && same_program(a, b) && same_mesh(a, b)
}

/// What linking and looking up the slots make of program `id`, from the
/// replies to `link_calls(id, ..)` followed by `reflect_calls(id, f)`.
pub open spec fn link_result(id: u32, f: Features, r: Seq<Reply>) -> Result<
    (Program, ProgramInfo),
    GlErrorView,
> {
    match program_result(id, r) {
        Err(e) => Err(e),
        Ok(p) => match info_result(id, f, r, 3) {
            Err(e) => Err(e),
            Ok(i) => Ok((p, i)),
        },
    }
}

/// A step that the renderer issued: `a` waits for its replies, with the
/// calls appended to the log and one object id taken.
pub open spec fn issued<V>(a: TetraView<V>, t: TetraView<V>, calls: Seq<GlCall>) -> bool {
    &&& a.calls == t.calls + calls
    &&& a.next_id == t.next_id + 1
    &&& a.features == t.features
    &&& a.viewport_size == t.viewport_size
}

/// A step that started: the renderer waits for `w`, owning what it owned.
pub open spec fn started<V>(r: Result<Awaiting<V>, Failure>, t: TetraView<V>, calls: Seq<GlCall>, w: Awaited<V>) -> bool {
    &&& r is Ok
    &&& issued(r->Ok_0@.tetra, t, calls)
    &&& same_objects(r->Ok_0@.tetra, t)
    &&& r->Ok_0@.awaited == w
}

/// Linking started: the renderer waits for the outcome of program `id`,
/// holding the shaders apart from its list.
pub open spec fn link_started<V>(r: Result<Awaiting<V>, Failure>, t: TetraView<V>) -> bool {
    let id = t.next_id;
    &&& r is Ok
    &&& issued(r->Ok_0@.tetra, t, link_calls(id, t.shaders) + reflect_calls(id, t.features))
    &&& r->Ok_0@.tetra.shaders == Seq::<Shader>::empty()
    &&& same_program(r->Ok_0@.tetra, t)
    &&& same_mesh(r->Ok_0@.tetra, t)
    &&& r->Ok_0@.awaited is Program
    &&& r->Ok_0@.awaited->Program_id == id
    &&& r->Ok_0@.awaited->Program_shaders@ == t.shaders
}

/// The renderer ran out of object ids: it ends, releasing everything.
pub open spec fn out_of_ids<V>(r: Result<Awaiting<V>, Failure>, t: TetraView<V>, kind: GlObject) -> bool {
    &&& r is Err
    &&& r->Err_0.error@ == GlErrorView::ResourceCreation(kind)
    &&& r->Err_0.calls@ == t.calls + release_calls(t)
}

/// A failed step: the error, then the calls left in the log, `cleanup`, and
/// the release of everything the renderer owned.
pub open spec fn failed<V>(r: Result<Tetra<V>, Failure>, t: TetraView<V>, e: GlErrorView, cleanup: Seq<GlCall>) -> bool {
    &&& r is Err
    &&& r->Err_0.error@ == e
    &&& r->Err_0.calls@ == t.calls + cleanup + release_calls(t)
}

/// A compiled shader joins the list; nothing else changes.
pub open spec fn kept_shader<V>(n: TetraView<V>, t: TetraView<V>, s: Shader) -> bool {
    &&& n.calls == t.calls
    &&& same_setup(n, t)
    &&& n.shaders == t.shaders.push(s)
    &&& same_program(n, t)
    &&& same_mesh(n, t)
}

/// The program and its slots are in place, after `calls`.
pub open spec fn linked<V>(n: TetraView<V>, t: TetraView<V>, p: Program, info: ProgramInfo, calls: Seq<GlCall>) -> bool {
    &&& n.calls == t.calls + calls
    &&& same_setup(n, t)
    &&& n.shaders == t.shaders
    &&& n.program == Some(p)
    &&& n.program_info == Some(info)
    &&& same_mesh(n, t)
}

/// Buffer `b` is in `slot`; the one it replaces is deleted.
pub open spec fn filled_slot<V>(n: TetraView<V>, t: TetraView<V>, slot: VertexSlot, b: BufferView<V>) -> bool {
    &&& n.calls == t.calls + buffer_delete(slot_buffer(t, slot))
    &&& same_setup(n, t)
    &&& n.shaders == t.shaders
    &&& same_program(n, t)
    &&& slot_buffer(n, slot) is Some
    &&& slot_buffer(n, slot)->Some_0@ == b
    &&& forall|o: VertexSlot| o != slot ==> slot_buffer(n, o) == slot_buffer(t, o)
    &&& n.element_buffer == t.element_buffer
    &&& n.texture == t.texture
}

/// Index buffer `b` is in place; the one it replaces is deleted.
pub open spec fn filled_indices<V>(n: TetraView<V>, t: TetraView<V>, b: BufferView<u16>) -> bool {
    &&& n.calls == t.calls + buffer_delete(t.element_buffer)
    &&& same_setup(n, t)
    &&& n.shaders == t.shaders
    &&& same_program(n, t)
    &&& n.vert_buffer == t.vert_buffer
    &&& n.normal_buffer == t.normal_buffer
    &&& n.tex_coord_buffer == t.tex_coord_buffer
    &&& n.element_buffer is Some
    &&& n.element_buffer->Some_0@ == b
    &&& n.texture == t.texture
}

/// Texture `x` is in place; the one it replaces is deleted.
pub open spec fn took_texture<V>(n: TetraView<V>, t: TetraView<V>, x: Texture2D) -> bool {
    &&& n.calls == t.calls + texture_delete(t.texture)
    &&& same_setup(n, t)
    &&& n.shaders == t.shaders
    &&& same_program(n, t)
    &&& n.vert_buffer == t.vert_buffer
    &&& n.normal_buffer == t.normal_buffer
    &&& n.tex_coord_buffer == t.tex_coord_buffer
    &&& n.element_buffer == t.element_buffer
    &&& n.texture == Some(x)
}

/// What resuming `a` with the replies `r` gives.
pub open spec fn resumed<V>(a: AwaitingView<V>, r: Seq<Reply>, out: Result<Tetra<V>, Failure>) -> bool {
    let t = a.tetra;
    match a.awaited {
        Awaited::Shader { id, stage } => match compile_result(id, stage, r) {
            Ok(s) => out is Ok && kept_shader(out->Ok_0@, t, s),
            Err(e) => failed(
                out,
                t,
                e,
                if created(r, 0) {
                    seq![GlCall::DeleteShader { shader: id }]
                } else {
                    seq![]
                },
            ),
        },
        Awaited::Program { id, shaders } => match link_result(id, t.features, r) {
            Ok((p, info)) => out is Ok && linked(
                out->Ok_0@,
                t,
                p,
                info,
                program_delete(t.program) + shader_deletes(shaders@),
            ),
            Err(e) => failed(
                out,
                t,
                e,
                (if created(r, 0) {
                    seq![GlCall::DeleteProgram { program: id }]
                } else {
                    seq![]
                }) + shader_deletes(shaders@),
            ),
        },
        Awaited::VertexBuffer { slot, id, array } => if created(r, 0) {
            out is Ok && filled_slot(
                out->Ok_0@,
                t,
                slot,
                BufferView { id, target: BufferTarget::Array, elements: array@ },
            )
        } else {
            failed(out, t, GlErrorView::ResourceCreation(GlObject::Buffer), seq![])
        },
        Awaited::IndexBuffer { id, array } => if created(r, 0) {
            out is Ok && filled_indices(
                out->Ok_0@,
                t,
                BufferView { id, target: BufferTarget::ElementArray, elements: array@ },
            )
        } else {
            failed(out, t, GlErrorView::ResourceCreation(GlObject::Buffer), seq![])
        },
        Awaited::Texture { id, width, height } => if created(r, 0) && uploaded(r, 1) {
            out is Ok && took_texture(out->Ok_0@, t, Texture2D { id, width, height })
        } else {
            failed(
                out,
                t,
                GlErrorView::ResourceCreation(GlObject::Texture),
                if created(r, 0) {
                    seq![
                        GlCall::BindTexture { texture: None },
                        GlCall::DeleteTexture { texture: id },
                    ]
                } else {
                    seq![]
                },
            )
        },
    }
}

/// Every slot the features need was resolved.
pub open spec fn slots_cover(info: ProgramInfo, f: Features) -> bool {
    &&& f.lit ==> info.attrib_locs.normal is Some && info.uniform_locs.normal_matrix is Some
    &&& f.textured ==> info.attrib_locs.tex_coord is Some && info.uniform_locs.sampler is Some
}

/// The first resource that a frame needs and the renderer lacks, if any.
pub open spec fn missing<V>(t: TetraView<V>) -> Option<Resource> {
    if t.program is None || t.program_info is None {
        Some(Resource::Program)
    } else if t.vert_buffer is None {
        Some(Resource::PositionBuffer)
    } else if t.features.lit && t.normal_buffer is None {
        Some(Resource::NormalBuffer)
    } else if t.features.textured && t.tex_coord_buffer is None {
        Some(Resource::TexCoordBuffer)
    } else if t.features.textured && t.texture is None {
        Some(Resource::Texture)
    } else if !slots_cover(t.program_info->Some_0, t.features) {
        Some(Resource::Program)
    } else {
        None
    }
}

/// Binding the texture to unit 0 and pointing the sampler at that unit.
pub open spec fn sampler_calls(texture: u32, sampler: UniformLoc) -> Seq<GlCall> {
    seq![
        GlCall::ActiveTexture0,
        GlCall::BindTexture { texture: Some(texture) },
        GlCall::Uniform1i { location: sampler, value: 0 },
    ]
}

/// Clearing to opaque black and far depth, with less-or-equal depth testing.
pub open spec fn clear_calls() -> Seq<GlCall> {
    seq![
        GlCall::ClearColorBlack,
        GlCall::ClearDepthFar,
        GlCall::EnableDepthTest,
        GlCall::DepthFuncLessEqual,
        GlCall::ClearColorAndDepth,
    ]
}

/// Feeding attribute `location` from `buffer`, `size` floats per vertex.
pub open spec fn attrib_calls(buffer: u32, location: u32, size: u32) -> Seq<GlCall> {
    seq![
        GlCall::BindBuffer { target: BufferTarget::Array, buffer: Some(buffer) },
        GlCall::VertexAttribPointer { location, size },
        GlCall::EnableVertexAttribArray { location },
    ]
}

/// An indexed draw of every index, or a draw of every vertex.
pub open spec fn dispatch_calls<V>(t: TetraView<V>) -> Seq<GlCall> {
    match t.element_buffer {
        Some(e) => seq![
            GlCall::BindBuffer { target: BufferTarget::ElementArray, buffer: Some(e@.id) },
            GlCall::DrawElements { count: e@.elements.len() as usize },
            GlCall::BindBuffer { target: BufferTarget::ElementArray, buffer: None },
        ],
        None => seq![GlCall::DrawArrays { count: (t.vert_buffer->Some_0@.elements.len() / 3) as usize }],
    }
}

/// `s` where `c` holds, else nothing.
pub open spec fn when(c: bool, s: Seq<GlCall>) -> Seq<GlCall> {
    if c {
        s
    } else {
        seq![]
    }
}

/// Leaving no buffer bound for vertex attributes.
pub open spec fn unbind_array() -> Seq<GlCall> {
    seq![GlCall::BindBuffer { target: BufferTarget::Array, buffer: None }]
}

/// The calls of one frame of a renderer that lacks nothing.
pub open spec fn frame_calls<V>(t: TetraView<V>) -> Seq<GlCall>
    recommends
        missing(t) is None,
{
    let f = t.features;
    let info = t.program_info->Some_0;
    let a = info.attrib_locs;
    let u = info.uniform_locs;
    seq![GlCall::UseProgram { program: Some(t.program->Some_0.id) }]
        + when(f.textured, sampler_calls(t.texture->Some_0.id, u.sampler->Some_0))
        + clear_calls()
        + attrib_calls(t.vert_buffer->Some_0@.id, a.position, 3)
        + when(f.lit, attrib_calls(t.normal_buffer->Some_0@.id, a.normal->Some_0, 3))
        + when(f.textured, attrib_calls(t.tex_coord_buffer->Some_0@.id, a.tex_coord->Some_0, 2))
        + seq![GlCall::UniformMatrix4 { location: u.model_view_projection, matrix: FrameMatrix::ModelViewProjection }]
        + when(f.lit, seq![GlCall::UniformMatrix4 { location: u.normal_matrix->Some_0, matrix: FrameMatrix::Normal }])
        + dispatch_calls(t)
        + when(f.textured, unbind_array())
        + when(f.lit, unbind_array())
        + unbind_array()
        + when(f.textured, seq![GlCall::BindTexture { texture: None }])
        + seq![GlCall::UseProgram { program: None }]
}

proof fn lemma_after_when(b: Bindings, c: bool, s: Seq<GlCall>)
    ensures
        bindings_after(b, when(c, s)) == if c {
            bindings_after(b, s)
        } else {
            b
        },
{
    broadcast use group_bindings;

    if !c {
        assert(when(c, s) =~= Seq::<GlCall>::empty());
    }
}

proof fn lemma_after_segments(b: Bindings, t: u32, l: UniformLoc, buf: u32, loc: u32, size: u32, m: UniformLoc)
    ensures
        bindings_after(b, sampler_calls(t, l)) == (Bindings { texture: Some(t), ..b }),
        bindings_after(b, clear_calls()) == b,
        bindings_after(b, attrib_calls(buf, loc, size)) == (Bindings { array_buffer: Some(buf), ..b }),
        bindings_after(b, unbind_array()) == (Bindings { array_buffer: None, ..b }),
        bindings_after(b, seq![GlCall::UniformMatrix4 { location: m, matrix: FrameMatrix::ModelViewProjection }]) == b,
        bindings_after(b, seq![GlCall::UniformMatrix4 { location: m, matrix: FrameMatrix::Normal }]) == b,
        bindings_after(b, seq![GlCall::BindTexture { texture: None }]) == (Bindings { texture: None, ..b }),
        bindings_after(b, seq![GlCall::UseProgram { program: None }]) == (Bindings { program: None, ..b }),
{
    broadcast use group_bindings;

    let e = Seq::<GlCall>::empty();
    let s1 = e.push(GlCall::ActiveTexture0);
    let s2 = s1.push(GlCall::BindTexture { texture: Some(t) });
    assert(bindings_after(b, s1) == b);
    assert(bindings_after(b, s2) == (Bindings { texture: Some(t), ..b }));
    let s3 = s2.push(GlCall::Uniform1i { location: l, value: 0 });
    assert(sampler_calls(t, l) =~= s3);
    assert(bindings_after(b, s3) == (Bindings { texture: Some(t), ..b }));
    let c1 = e.push(GlCall::ClearColorBlack);
    let c2 = c1.push(GlCall::ClearDepthFar);
    let c3 = c2.push(GlCall::EnableDepthTest);
    let c4 = c3.push(GlCall::DepthFuncLessEqual);
    assert(bindings_after(b, c1) == b);
    assert(bindings_after(b, c2) == b);
    assert(bindings_after(b, c3) == b);
    assert(bindings_after(b, c4) == b);
    let c5 = c4.push(GlCall::ClearColorAndDepth);
    assert(clear_calls() =~= c5);
    assert(bindings_after(b, c5) == b);
    let a1 = e.push(GlCall::BindBuffer { target: BufferTarget::Array, buffer: Some(buf) });
    let a2 = a1.push(GlCall::VertexAttribPointer { location: loc, size });
    let a3 = a2.push(GlCall::EnableVertexAttribArray { location: loc });
    assert(attrib_calls(buf, loc, size) =~= a3);
    assert(bindings_after(b, a1) == (Bindings { array_buffer: Some(buf), ..b }));
    assert(bindings_after(b, a2) == (Bindings { array_buffer: Some(buf), ..b }));
    assert(bindings_after(b, a3) == (Bindings { array_buffer: Some(buf), ..b }));
}

proof fn lemma_after_dispatch<V>(b: Bindings, t: TetraView<V>)
    ensures
        bindings_after(b, dispatch_calls(t)) == (Bindings { element_buffer: if t.element_buffer is Some {
            None
        } else {
            b.element_buffer
        }, ..b }),
{
    broadcast use group_bindings;

    let e = Seq::<GlCall>::empty();
    match t.element_buffer {
        Some(x) => {
            let d1 = e.push(GlCall::BindBuffer { target: BufferTarget::ElementArray, buffer: Some(x@.id) });
            let d2 = d1.push(GlCall::DrawElements { count: x@.elements.len() as usize });
            assert(bindings_after(b, d1) == (Bindings { element_buffer: Some(x@.id), ..b }));
            assert(bindings_after(b, d2) == (Bindings { element_buffer: Some(x@.id), ..b }));
            let d3 = d2.push(GlCall::BindBuffer { target: BufferTarget::ElementArray, buffer: None });
            assert(dispatch_calls(t) =~= d3);
        },
        None => {
            let d1 = e.push(GlCall::DrawArrays { count: (t.vert_buffer->Some_0@.elements.len() / 3) as usize });
            assert(dispatch_calls(t) =~= d1);
        },
    }
}

/// A frame undoes every binding it makes: performed with nothing bound, it
/// leaves no program, buffer or texture bound.
pub proof fn frame_leaves_nothing_bound<V>(t: TetraView<V>)
    requires
        missing(t) is None,
    ensures
        bindings_after(unbound(), frame_calls(t)) == unbound(),
{
    broadcast use lemma_bindings_after_concat;

    let f = t.features;
    let info = t.program_info->Some_0;
    let a = info.attrib_locs;
    let u = info.uniform_locs;
    let b0 = unbound();
    let s1 = when(f.textured, sampler_calls(t.texture->Some_0.id, u.sampler->Some_0));
    let s3 = attrib_calls(t.vert_buffer->Some_0@.id, a.position, 3);
    let s4 = when(f.lit, attrib_calls(t.normal_buffer->Some_0@.id, a.normal->Some_0, 3));
    let s5 = when(f.textured, attrib_calls(t.tex_coord_buffer->Some_0@.id, a.tex_coord->Some_0, 2));
    let s6 = seq![GlCall::UniformMatrix4 { location: u.model_view_projection, matrix: FrameMatrix::ModelViewProjection }];
    let s7 = when(f.lit, seq![GlCall::UniformMatrix4 { location: u.normal_matrix->Some_0, matrix: FrameMatrix::Normal }]);
    let s9 = when(f.textured, unbind_array());
    let s10 = when(f.lit, unbind_array());
    let s12 = when(f.textured, seq![GlCall::BindTexture { texture: None }]);
    let s13 = seq![GlCall::UseProgram { program: None }];
    let q0 = seq![GlCall::UseProgram { program: Some(t.program->Some_0.id) }];
    let q1 = q0 + s1;
    let q2 = q1 + clear_calls();
    let q3 = q2 + s3;
    let q4 = q3 + s4;
    let q5 = q4 + s5;
    let q6 = q5 + s6;
    let q7 = q6 + s7;
    let q8 = q7 + dispatch_calls(t);
    let q9 = q8 + s9;
    let q10 = q9 + s10;
    let q11 = q10 + unbind_array();
    let q12 = q11 + s12;
    let q13 = q12 + s13;
    assert(q13 == frame_calls(t));
    reveal_with_fuel(bindings_after, 2);
    let c0 = bindings_after(b0, q0);
    assert(q0.drop_first() =~= Seq::<GlCall>::empty());
    assert(c0 == (Bindings { program: Some(t.program->Some_0.id), ..b0 }));
    let l = u.sampler->Some_0;
    let x = t.texture->Some_0.id;
    lemma_after_when(c0, f.textured, sampler_calls(x, l));
    lemma_after_segments(c0, x, l, 0, 0, 0, l);
    let c1 = bindings_after(b0, q1);
    assert(c1.element_buffer is None && (!f.textured ==> c1.texture is None));
    lemma_after_segments(c1, x, l, 0, 0, 0, l);
    let c2 = bindings_after(b0, q2);
    lemma_after_segments(c2, x, l, t.vert_buffer->Some_0@.id, a.position, 3, l);
    let c3 = bindings_after(b0, q3);
    lemma_after_when(c3, f.lit, attrib_calls(t.normal_buffer->Some_0@.id, a.normal->Some_0, 3));
    lemma_after_segments(c3, x, l, t.normal_buffer->Some_0@.id, a.normal->Some_0, 3, l);
    let c4 = bindings_after(b0, q4);
    lemma_after_when(c4, f.textured, attrib_calls(t.tex_coord_buffer->Some_0@.id, a.tex_coord->Some_0, 2));
    lemma_after_segments(c4, x, l, t.tex_coord_buffer->Some_0@.id, a.tex_coord->Some_0, 2, l);
    let c5 = bindings_after(b0, q5);
    lemma_after_segments(c5, x, l, 0, 0, 0, u.model_view_projection);
    let c6 = bindings_after(b0, q6);
    assert(c6.element_buffer is None && (!f.textured ==> c6.texture is None));
    let n = u.normal_matrix->Some_0;
    lemma_after_when(c6, f.lit, seq![GlCall::UniformMatrix4 { location: n, matrix: FrameMatrix::Normal }]);
    lemma_after_segments(c6, x, l, 0, 0, 0, n);
    let c7 = bindings_after(b0, q7);
    lemma_after_dispatch(c7, t);
    let c8 = bindings_after(b0, q8);
    assert(c8.element_buffer is None && (!f.textured ==> c8.texture is None));
    lemma_after_when(c8, f.textured, unbind_array());
    lemma_after_segments(c8, x, l, 0, 0, 0, l);
    let c9 = bindings_after(b0, q9);
    lemma_after_when(c9, f.lit, unbind_array());
    lemma_after_segments(c9, x, l, 0, 0, 0, l);
    let c10 = bindings_after(b0, q10);
    lemma_after_segments(c10, x, l, 0, 0, 0, l);
    let c11 = bindings_after(b0, q11);
    assert(c11.element_buffer is None && c11.array_buffer is None && (!f.textured ==> c11.texture is None));
    lemma_after_when(c11, f.textured, seq![GlCall::BindTexture { texture: None }]);
    lemma_after_segments(c11, x, l, 0, 0, 0, l);
    let c12 = bindings_after(b0, q12);
    assert(c12.element_buffer is None && c12.array_buffer is None && c12.texture is None);
    lemma_after_segments(c12, x, l, 0, 0, 0, l);
}

/// A program whose replies answer every query with success (created,
/// linked, a slot for each required attribute, each required uniform
/// found) links, and its slots are exactly the ones the replies gave.
pub proof fn matching_names_resolve(id: u32, f: Features, r: Seq<Reply>)
    requires
        created(r, 0),
        flag_set(r, 1),
        forall|i: int|
            0 <= i < required_attributes(f).len() ==> #[trigger] location_at(r, 3 + i) is Some,
        forall|j: int|
            0 <= j < required_uniforms(f).len() ==> #[trigger] found(
                r,
                3 + required_attributes(f).len() + j,
            ),
    ensures
        link_result(id, f, r) is Ok,
        link_result(id, f, r)->Ok_0.0 == (Program { id }),
        link_result(id, f, r)->Ok_0.1.attrib_locs.position == location_at(r, 3)->Some_0,
        link_result(id, f, r)->Ok_0.1.attrib_locs.normal == if f.lit {
            location_at(r, 4)
        } else {
            None
        },
        link_result(id, f, r)->Ok_0.1.attrib_locs.tex_coord == if f.textured {
            location_at(r, 3 + third(f))
        } else {
            None
        },
        link_result(id, f, r)->Ok_0.1.uniform_locs.model_view_projection == (UniformLoc {
            program: id,
            uniform: Uniform::ModelViewProjection,
        }),
        link_result(id, f, r)->Ok_0.1.uniform_locs.normal_matrix == if f.lit {
            Some(UniformLoc { program: id, uniform: Uniform::NormalMatrix })
        } else {
            None
        },
        link_result(id, f, r)->Ok_0.1.uniform_locs.sampler == if f.textured {
            Some(UniformLoc { program: id, uniform: Uniform::Sampler })
        } else {
            None
        },
{
    let zero: int = 0;
    let one: int = 1;
    assert(location_at(r, 3 + zero) is Some);
    assert(found(r, 3 + required_attributes(f).len() + zero));
    if f.lit {
        assert(location_at(r, 3 + one) is Some);
        assert(found(r, 3 + required_attributes(f).len() + one));
    }
    if f.textured {
        assert(location_at(r, 3 + third(f)) is Some);
        assert(found(r, 3 + required_attributes(f).len() + third(f)));
    }
}

/// A linked program without `a_position` is reported as missing exactly
/// that attribute, so the renderer never gets a program to draw with.
pub proof fn missing_position_is_reported(id: u32, f: Features, r: Seq<Reply>)
    requires
        created(r, 0),
        flag_set(r, 1),
        location_at(r, 3) is None,
    ensures
        link_result(id, f, r) == Err::<(Program, ProgramInfo), GlErrorView>(
            GlErrorView::MissingAttribute(Attribute::Position),
        ),
{
}

/// Without a position buffer there is no frame: `draw` reports what is
/// missing and issues nothing.
pub proof fn no_frame_without_buffers<V>(t: TetraView<V>)
    requires
        t.vert_buffer is None,
    ensures
        missing(t) == Some(Resource::Program) || missing(t) == Some(Resource::PositionBuffer),
{
}

/// The deletions that the objects of the awaited step are owed: the object
/// it created, where the context gave it, and the shaders a link holds.
pub open spec fn step_objects<V>(a: AwaitingView<V>, r: Seq<Reply>) -> Seq<GlCall> {
    match a.awaited {
        Awaited::Shader { id, .. } => when(created(r, 0), seq![GlCall::DeleteShader { shader: id }]),
        Awaited::Program { id, shaders } => when(
            created(r, 0),
            seq![GlCall::DeleteProgram { program: id }],
        ) + shader_deletes(shaders@),
        Awaited::VertexBuffer { id, .. } => when(created(r, 0), seq![GlCall::DeleteBuffer { buffer: id }]),
        Awaited::IndexBuffer { id, .. } => when(created(r, 0), seq![GlCall::DeleteBuffer { buffer: id }]),
        Awaited::Texture { id, .. } => when(created(r, 0), seq![GlCall::DeleteTexture { texture: id }]),
    }
}

proof fn lemma_shader_deletes_push(s: Seq<Shader>, x: Shader)
    ensures
        shader_deletes(s.push(x)) == shader_deletes(s).push(GlCall::DeleteShader { shader: x.id }),
{
    assert(shader_deletes(s.push(x)) =~= shader_deletes(s).push(GlCall::DeleteShader { shader: x.id }));
}

/// What the renderer and its step owned, counted as deletions, is exactly
/// what the step's calls delete plus what the renderer owns afterwards; after
/// a failure, exactly what the failure's calls delete.
pub open spec fn conserved<V>(a: AwaitingView<V>, r: Seq<Reply>, out: Result<Tetra<V>, Failure>) -> bool {
    let owned = deletions(release_calls(a.tetra) + step_objects(a, r));
    let k = a.tetra.calls.len() as int;
    &&& out is Ok ==> owned == deletions(out->Ok_0@.calls.skip(k)).add(
        deletions(release_calls(out->Ok_0@)),
    )
    &&& out is Err ==> owned == deletions(out->Err_0.calls@.skip(k))
}

proof fn lemma_conserved_link<V>(a: AwaitingView<V>, r: Seq<Reply>, out: Result<Tetra<V>, Failure>)
    requires
        resumed(a, r, out),
        out is Ok,
        a.awaited is Program,
    ensures
        conserved(a, r, out),
{
    broadcast use group_deletions;

    let t = a.tetra;
    let k = t.calls.len() as int;
    let v = out->Ok_0@;
    let id = a.awaited->Program_id;
    let held = shader_deletes(a.awaited->Program_shaders@);
    let dp = seq![GlCall::DeleteProgram { program: id }];
    let rest = buffer_delete(t.vert_buffer) + buffer_delete(t.normal_buffer) + buffer_delete(
        t.tex_coord_buffer,
    ) + buffer_delete(t.element_buffer) + texture_delete(t.texture);
    assert(v.calls.skip(k) =~= program_delete(t.program) + held);
    assert(created(r, 0));
    assert(v.program == Some(Program { id }));
    assert(step_objects(a, r) =~= dp + held);
    assert(release_calls(t) =~= shader_deletes(t.shaders) + program_delete(t.program) + rest);
    assert(release_calls(v) =~= shader_deletes(t.shaders) + dp + rest);
    assert(deletions(release_calls(t) + step_objects(a, r)) =~= deletions(v.calls.skip(k)).add(
        deletions(release_calls(v)),
    ));
}

proof fn lemma_conserved_shader<V>(a: AwaitingView<V>, r: Seq<Reply>, out: Result<Tetra<V>, Failure>)
    requires
        resumed(a, r, out),
        out is Ok,
        a.awaited is Shader,
    ensures
        conserved(a, r, out),
{
    broadcast use group_deletions;

    let t = a.tetra;
    let k = t.calls.len() as int;
    let v = out->Ok_0@;
    match a.awaited {
        Awaited::Shader { id, stage } => {
            assert(v.calls.skip(k) =~= Seq::<GlCall>::empty());
            lemma_shader_deletes_push(t.shaders, Shader { id, stage });
            assert(deletions(release_calls(t) + step_objects(a, r)) =~= deletions(release_calls(v)));
            assert(deletions(v.calls.skip(k)).add(deletions(release_calls(v))) =~= deletions(
                release_calls(v),
            ));
        },
        _ => {},
    }
}

proof fn lemma_refill<V>(v: TetraView<V>, t: TetraView<V>, slot: VertexSlot, b: BufferView<V>)
    requires
        filled_slot(v, t, slot, b),
    ensures
        deletions(release_calls(t) + seq![GlCall::DeleteBuffer { buffer: b.id }]) == deletions(
            v.calls.skip(t.calls.len() as int),
        ).add(deletions(release_calls(v))),
{
    broadcast use group_deletions;

    let k = t.calls.len() as int;
    let db = seq![GlCall::DeleteBuffer { buffer: b.id }];
    assert(v.calls.skip(k) =~= buffer_delete(slot_buffer(t, slot)));
    assert(buffer_delete(slot_buffer(v, slot)) =~= db);
    match slot {
        VertexSlot::Position => {
            assert(slot_buffer(v, VertexSlot::Normal) == slot_buffer(t, VertexSlot::Normal));
            assert(slot_buffer(v, VertexSlot::TexCoord) == slot_buffer(t, VertexSlot::TexCoord));
        },
        VertexSlot::Normal => {
            assert(slot_buffer(v, VertexSlot::Position) == slot_buffer(t, VertexSlot::Position));
            assert(slot_buffer(v, VertexSlot::TexCoord) == slot_buffer(t, VertexSlot::TexCoord));
        },
        VertexSlot::TexCoord => {
            assert(slot_buffer(v, VertexSlot::Position) == slot_buffer(t, VertexSlot::Position));
            assert(slot_buffer(v, VertexSlot::Normal) == slot_buffer(t, VertexSlot::Normal));
        },
    }
    assert(deletions(release_calls(t) + db) =~= deletions(v.calls.skip(k)).add(
        deletions(release_calls(v)),
    ));
}

proof fn lemma_conserved_vertices<V>(a: AwaitingView<V>, r: Seq<Reply>, out: Result<Tetra<V>, Failure>)
    requires
        resumed(a, r, out),
        out is Ok,
        a.awaited is VertexBuffer,
    ensures
        conserved(a, r, out),
{
    let t = a.tetra;
    let v = out->Ok_0@;
    let slot = a.awaited->VertexBuffer_slot;
    let id = a.awaited->VertexBuffer_id;
    let b = BufferView { id, target: BufferTarget::Array, elements: a.awaited->VertexBuffer_array@ };
    assert(created(r, 0));
    assert(filled_slot(v, t, slot, b));
    assert(step_objects(a, r) =~= seq![GlCall::DeleteBuffer { buffer: id }]);
    lemma_refill(v, t, slot, b);
}

proof fn lemma_conserved_replaced<V>(a: AwaitingView<V>, r: Seq<Reply>, out: Result<Tetra<V>, Failure>)
    requires
        resumed(a, r, out),
        out is Ok,
        a.awaited is IndexBuffer || a.awaited is Texture,
    ensures
        conserved(a, r, out),
{
    broadcast use group_deletions;

    let t = a.tetra;
    let k = t.calls.len() as int;
    let v = out->Ok_0@;
    match a.awaited {
        Awaited::IndexBuffer { .. } => {
            assert(v.calls.skip(k) =~= buffer_delete(t.element_buffer));
            assert(deletions(release_calls(t) + step_objects(a, r)) =~= deletions(
                v.calls.skip(k),
            ).add(deletions(release_calls(v))));
        },
        Awaited::Texture { .. } => {
            assert(v.calls.skip(k) =~= texture_delete(t.texture));
            assert(deletions(release_calls(t) + step_objects(a, r)) =~= deletions(
                v.calls.skip(k),
            ).add(deletions(release_calls(v))));
        },
        _ => {},
    }
}

proof fn lemma_conserved_failed<V>(a: AwaitingView<V>, r: Seq<Reply>, out: Result<Tetra<V>, Failure>)
    requires
        resumed(a, r, out),
        out is Err,
    ensures
        conserved(a, r, out),
{
    broadcast use group_deletions;

    let t = a.tetra;
    let k = t.calls.len() as int;
    let c = out->Err_0.calls@;
    match a.awaited {
        Awaited::Texture { id, .. } => {
            if created(r, 0) {
                let e = Seq::<GlCall>::empty();
                let unbind = GlCall::BindTexture { texture: None };
                let del = GlCall::DeleteTexture { texture: id };
                let cleanup = e.push(unbind).push(del);
                assert(c.skip(k) =~= cleanup + release_calls(t));
                lemma_deletions_push(e, unbind);
                lemma_deletions_push(e.push(unbind), del);
                lemma_deletions_push(e, del);
                assert(step_objects(a, r) == e.push(del));
                assert(deletion(unbind) =~= Multiset::<GlCall>::empty());
                assert(deletions(cleanup) =~= deletions(step_objects(a, r)));
            } else {
                assert(c.skip(k) =~= step_objects(a, r) + release_calls(t));
            }
        },
        _ => {
            assert(c.skip(k) =~= step_objects(a, r) + release_calls(t));
        },
    }
    assert(deletions(release_calls(t) + step_objects(a, r)) =~= deletions(c.skip(k)));
}

/// Resuming a step neither loses an object nor deletes one twice: what the
/// renderer and its step owned is, counted as deletions, exactly what the
/// step's calls delete plus what the renderer owns afterwards; after a
/// failure, exactly what the failure's calls delete.
pub proof fn resume_releases_each_object_once<V>(
    a: AwaitingView<V>,
    r: Seq<Reply>,
    out: Result<Tetra<V>, Failure>,
)
    requires
        resumed(a, r, out),
    ensures
        conserved(a, r, out),
{
    if out is Err {
        lemma_conserved_failed(a, r, out);
    } else if a.awaited is Program {
        lemma_conserved_link(a, r, out);
    } else if a.awaited is Shader {
        lemma_conserved_shader(a, r, out);
    } else if a.awaited is VertexBuffer {
        lemma_conserved_vertices(a, r, out);
    } else {
        lemma_conserved_replaced(a, r, out);
    }
}

fn buffer_id<T>(b: &Option<GlBuffer<T>>) -> (id: u32)
    requires
        b is Some,
    ensures
        id == b->Some_0@.id,
{
    match b {
        Some(b) => b.id(),
        None => 0,
    }
}

fn push_sampler(calls: &mut Vec<GlCall>, texture: u32, sampler: UniformLoc)
    ensures
        final(calls)@ == old(calls)@ + sampler_calls(texture, sampler),
{
    calls.push(GlCall::ActiveTexture0);
    calls.push(GlCall::BindTexture { texture: Some(texture) });
    calls.push(GlCall::Uniform1i { location: sampler, value: 0 });
    assert(calls@ =~= old(calls)@ + sampler_calls(texture, sampler));
}

fn push_clear(calls: &mut Vec<GlCall>)
    ensures
        final(calls)@ == old(calls)@ + clear_calls(),
{
    calls.push(GlCall::ClearColorBlack);
    calls.push(GlCall::ClearDepthFar);
    calls.push(GlCall::EnableDepthTest);
    calls.push(GlCall::DepthFuncLessEqual);
    calls.push(GlCall::ClearColorAndDepth);
    assert(calls@ =~= old(calls)@ + clear_calls());
}

fn push_attrib(calls: &mut Vec<GlCall>, buffer: u32, location: u32, size: u32)
    ensures
        final(calls)@ == old(calls)@ + attrib_calls(buffer, location, size),
{
    calls.push(GlCall::BindBuffer { target: BufferTarget::Array, buffer: Some(buffer) });
    calls.push(GlCall::VertexAttribPointer { location, size });
    calls.push(GlCall::EnableVertexAttribArray { location });
    assert(calls@ =~= old(calls)@ + attrib_calls(buffer, location, size));
}

fn push_dispatch<V>(calls: &mut Vec<GlCall>, t: &Tetra<V>)
    requires
        t@.vert_buffer is Some,
    ensures
        final(calls)@ == old(calls)@ + dispatch_calls(t@),
{
    match &t.element_buffer {
        Some(e) => {
            calls.push(GlCall::BindBuffer { target: BufferTarget::ElementArray, buffer: Some(e.id()) });
            calls.push(GlCall::DrawElements { count: e.element_count() });
            calls.push(GlCall::BindBuffer { target: BufferTarget::ElementArray, buffer: None });
        },
        None => match &t.vert_buffer {
            Some(v) => calls.push(GlCall::DrawArrays { count: v.element_count() / 3 }),
            None => {},
        },
    }
    assert(calls@ =~= old(calls)@ + dispatch_calls(t@));
}

fn delete_shaders(gl: &mut WebGl, shaders: &Vec<Shader>)
    ensures
        final(gl).calls@ == old(gl).calls@ + shader_deletes(shaders@),
        final(gl).next_id == old(gl).next_id,
{
    let mut i: usize = 0;
    while i < shaders.len()
        invariant
            i <= shaders@.len(),
            gl.calls@ == old(gl).calls@ + shader_deletes(shaders@.subrange(0, i as int)),
            gl.next_id == old(gl).next_id,
        decreases shaders.len() - i,
    {
        gl.issue(GlCall::DeleteShader { shader: shaders[i].id });
        assert(shaders@.subrange(0, i + 1) =~= shaders@.subrange(0, i as int).push(shaders@[i as int]));
        assert(shader_deletes(shaders@.subrange(0, i + 1)) =~= shader_deletes(
            shaders@.subrange(0, i as int),
        ).push(GlCall::DeleteShader { shader: shaders@[i as int].id }));
        i = i + 1;
    }
    assert(shaders@.subrange(0, i as int) =~= shaders@);
}

fn delete_program(gl: &mut WebGl, p: &Option<Program>)
    ensures
        final(gl).calls@ == old(gl).calls@ + program_delete(*p),
        final(gl).next_id == old(gl).next_id,
{
    match p {
        Some(p) => gl.issue(GlCall::DeleteProgram { program: p.id }),
        None => {},
    }
    assert(gl.calls@ =~= old(gl).calls@ + program_delete(*p));
}

fn delete_buffer<T>(gl: &mut WebGl, b: &Option<GlBuffer<T>>)
    ensures
        final(gl).calls@ == old(gl).calls@ + buffer_delete(*b),
        final(gl).next_id == old(gl).next_id,
{
    match b {
        Some(b) => gl.issue(GlCall::DeleteBuffer { buffer: b.id() }),
        None => {},
    }
    assert(gl.calls@ =~= old(gl).calls@ + buffer_delete(*b));
}

fn delete_texture(gl: &mut WebGl, t: &Option<Texture2D>)
    ensures
        final(gl).calls@ == old(gl).calls@ + texture_delete(*t),
        final(gl).next_id == old(gl).next_id,
{
    match t {
        Some(t) => gl.issue(GlCall::DeleteTexture { texture: t.id }),
        None => {},
    }
    assert(gl.calls@ =~= old(gl).calls@ + texture_delete(*t));
}

impl<V> Tetra<V> {
    /// A renderer with nothing built yet, for a `width` by `height` viewport.
    pub fn new(width: u32, height: u32, features: Features) -> (r: Tetra<V>)
        ensures
            r@.calls == seq![GlCall::Viewport { width, height }],
            r@.next_id == 1,
            r@.viewport_size == (width, height),
            r@.features == features,
            r@.shaders == Seq::<Shader>::empty(),
            r@.program is None,
            r@.program_info is None,
            r@.vert_buffer is None,
            r@.normal_buffer is None,
            r@.tex_coord_buffer is None,
            r@.element_buffer is None,
            r@.texture is None,
    {
        let mut gl = WebGl::new();
        gl.issue(GlCall::Viewport { width, height });
        Tetra {
            gl,
            viewport_size: (width, height),
            features,
            shaders: Vec::new(),
            program: None,
            program_info: None,
            vert_buffer: None,
            normal_buffer: None,
            tex_coord_buffer: None,
            element_buffer: None,
            texture: None,
        }
    }

    /// The viewport size that frames are projected for.
    pub fn viewport_size(&self) -> (r: (u32, u32))
        ensures
            r == self@.viewport_size,
    {
        self.viewport_size
    }

    /// The inputs the shader pair reads.
    pub fn features(&self) -> (r: Features)
        ensures
            r == self@.features,
    {
        self.features
    }

    /// The compiled shaders waiting for the program.
    pub fn shaders(&self) -> (r: &Vec<Shader>)
        ensures
            r@ == self@.shaders,
    {
        &self.shaders
    }

    /// The linked program, once there is one.
    pub fn program(&self) -> (r: Option<Program>)
        ensures
            r == self@.program,
    {
        self.program
    }

    /// The program's resolved slots, once there is a program.
    pub fn program_info(&self) -> (r: Option<ProgramInfo>)
        ensures
            r == self@.program_info,
    {
        self.program_info
    }

    /// The buffer in a vertex slot.
    pub fn vertex_buffer(&self, slot: VertexSlot) -> (r: &Option<GlBuffer<V>>)
        ensures
            *r == slot_buffer(self@, slot),
    {
        match slot {
            VertexSlot::Position => &self.vert_buffer,
            VertexSlot::Normal => &self.normal_buffer,
            VertexSlot::TexCoord => &self.tex_coord_buffer,
        }
    }

    /// The index buffer, if one was loaded.
    pub fn element_buffer(&self) -> (r: &Option<GlBuffer<u16>>)
        ensures
            *r == self@.element_buffer,
    {
        &self.element_buffer
    }

    /// The texture, if one was loaded.
    pub fn texture(&self) -> (r: Option<Texture2D>)
        ensures
            r == self@.texture,
    {
        self.texture
    }

    /// Takes the issued calls, in order, for the host to perform.
    pub fn take_calls(&mut self) -> (r: Vec<GlCall>)
        ensures
            r@ == old(self)@.calls,
            final(self)@.calls == Seq::<GlCall>::empty(),
            same_setup(final(self)@, old(self)@),
            same_objects(final(self)@, old(self)@),
    {
        self.gl.take_calls()
    }

    /// Follows a new viewport size.
    pub fn refresh_viewport(&mut self, width: u32, height: u32)
        ensures
            final(self)@.calls == old(self)@.calls.push(GlCall::Viewport { width, height }),
            final(self)@.viewport_size == (width, height),
            final(self)@.features == old(self)@.features,
            final(self)@.next_id == old(self)@.next_id,
            same_objects(final(self)@, old(self)@),
    {
        self.gl.issue(GlCall::Viewport { width, height });
        self.viewport_size = (width, height);
    }

    /// Ends the renderer: the calls left in the log, then the deletion of
    /// every object it owns, once each.
    pub fn release(self) -> (r: Vec<GlCall>)
        ensures
            r@ == self@.calls + release_calls(self@),
    {
        let ghost v = self@;
        let mut t = self;
        let ghost c0 = t.gl.calls@;
        delete_shaders(&mut t.gl, &t.shaders);
        let ghost c1 = t.gl.calls@;
        delete_program(&mut t.gl, &t.program);
        let ghost c2 = t.gl.calls@;
        delete_buffer(&mut t.gl, &t.vert_buffer);
        let ghost c3 = t.gl.calls@;
        delete_buffer(&mut t.gl, &t.normal_buffer);
        let ghost c4 = t.gl.calls@;
        delete_buffer(&mut t.gl, &t.tex_coord_buffer);
        let ghost c5 = t.gl.calls@;
        delete_buffer(&mut t.gl, &t.element_buffer);
        let ghost c6 = t.gl.calls@;
        delete_texture(&mut t.gl, &t.texture);
        assert(c1 == c0 + shader_deletes(v.shaders));
        assert(c6 =~= c0 + shader_deletes(v.shaders) + program_delete(v.program) + buffer_delete(
            v.vert_buffer,
        ) + buffer_delete(v.normal_buffer) + buffer_delete(v.tex_coord_buffer) + buffer_delete(
            v.element_buffer,
        ));
        assert(t.gl.calls@ =~= c0 + release_calls(v));
        t.gl.take_calls()
    }

    /// Ends the renderer on `error`, after the calls in `cleanup`.
    fn fail(self, error: GlError, cleanup: Vec<GlCall>) -> (f: Failure)
        ensures
            f.error == error,
            f.calls@ == self@.calls + cleanup@ + release_calls(self@),
    {
        let mut t = self;
        t.gl.issue_all(cleanup);
        let calls = t.release();
        Failure { error, calls }
    }

    /// Compiles `source` as a `stage` shader and, once it compiled, keeps
    /// it for the program.
    pub fn add_shader(self, stage: Stage, source: String) -> (r: Result<Awaiting<V>, Failure>)
        ensures
            self@.next_id < u32::MAX ==> started(
                r,
                self@,
                compile_calls(self@.next_id, stage, source),
                (Awaited::Shader { id: self@.next_id, stage }),
            ),
            self@.next_id == u32::MAX ==> out_of_ids(r, self@, GlObject::Shader),
    {
        let mut t = self;
        match t.gl.fresh_id() {
            Some(id) => {
                compile_shader(&mut t.gl, id, stage, source);
                Ok(Awaiting { tetra: t, awaited: Awaited::Shader { id, stage } })
            },
            None => Err(t.fail(GlError::ResourceCreation(GlObject::Shader), Vec::new())),
        }
    }

    /// Compiles a vertex shader; see `add_shader`.
    pub fn add_vert_shader(self, source: String) -> (r: Result<Awaiting<V>, Failure>)
        ensures
            self@.next_id < u32::MAX ==> started(
                r,
                self@,
                compile_calls(self@.next_id, Stage::Vertex, source),
                (Awaited::Shader { id: self@.next_id, stage: Stage::Vertex }),
            ),
            self@.next_id == u32::MAX ==> out_of_ids(r, self@, GlObject::Shader),
    {
        self.add_shader(Stage::Vertex, source)
    }

    /// Compiles a fragment shader; see `add_shader`.
    pub fn add_frag_shader(self, source: String) -> (r: Result<Awaiting<V>, Failure>)
        ensures
            self@.next_id < u32::MAX ==> started(
                r,
                self@,
                compile_calls(self@.next_id, Stage::Fragment, source),
                (Awaited::Shader { id: self@.next_id, stage: Stage::Fragment }),
            ),
            self@.next_id == u32::MAX ==> out_of_ids(r, self@, GlObject::Shader),
    {
        self.add_shader(Stage::Fragment, source)
    }

    /// Links the kept shaders, in the order they were added, into a program
    /// and looks up every slot that the features require on it. The shaders
    /// leave the renderer's list; they are deleted once the outcome is known.
    /// A pair of one vertex and one fragment shader is what links; with
    /// fewer, the driver reports the link as failed.
    pub fn link_program(self) -> (r: Result<Awaiting<V>, Failure>)
        ensures
            self@.next_id < u32::MAX ==> link_started(r, self@),
            self@.next_id == u32::MAX ==> out_of_ids(r, self@, GlObject::Program),
    {
        let mut t = self;
        match t.gl.fresh_id() {
            Some(id) => {
                link_program(&mut t.gl, id, &t.shaders);
                let features = t.features;
                reflect_program(&mut t.gl, id, features);
                assert(t.gl.calls@ =~= self.gl.calls@ + (link_calls(id, self.shaders@) + reflect_calls(
                    id,
                    features,
                )));
                let mut shaders: Vec<Shader> = Vec::new();
                std::mem::swap(&mut shaders, &mut t.shaders);
                Ok(Awaiting { tetra: t, awaited: Awaited::Program { id, shaders } })
            },
            None => Err(t.fail(GlError::ResourceCreation(GlObject::Program), Vec::new())),
        }
    }

    /// Uploads per-vertex data into a new buffer for `slot`.
    pub fn load_vertices(self, slot: VertexSlot, array: Vec<V>) -> (r: Result<Awaiting<V>, Failure>)
        ensures
            self@.next_id < u32::MAX ==> started(
                r,
                self@,
                upload_calls(self@.next_id, BufferTarget::Array),
                (Awaited::VertexBuffer { slot, id: self@.next_id, array }),
            ),
            self@.next_id == u32::MAX ==> out_of_ids(r, self@, GlObject::Buffer),
    {
        let mut t = self;
        match t.gl.fresh_id() {
            Some(id) => {
                upload_buffer(&mut t.gl, id, BufferTarget::Array);
                Ok(Awaiting { tetra: t, awaited: Awaited::VertexBuffer { slot, id, array } })
            },
            None => Err(t.fail(GlError::ResourceCreation(GlObject::Buffer), Vec::new())),
        }
    }

    /// Uploads triangle indices into a new index buffer.
    pub fn load_indices(self, array: Vec<u16>) -> (r: Result<Awaiting<V>, Failure>)
        ensures
            self@.next_id < u32::MAX ==> started(
                r,
                self@,
                upload_calls(self@.next_id, BufferTarget::ElementArray),
                (Awaited::IndexBuffer { id: self@.next_id, array }),
            ),
            self@.next_id == u32::MAX ==> out_of_ids(r, self@, GlObject::Buffer),
    {
        let mut t = self;
        match t.gl.fresh_id() {
            Some(id) => {
                upload_buffer(&mut t.gl, id, BufferTarget::ElementArray);
                Ok(Awaiting { tetra: t, awaited: Awaited::IndexBuffer { id, array } })
            },
            None => Err(t.fail(GlError::ResourceCreation(GlObject::Buffer), Vec::new())),
        }
    }

    /// Uploads a `width` by `height` RGBA8 image into a new texture.
    pub fn load_texture(self, width: u32, height: u32, pixels: Vec<u8>) -> (r: Result<
        Awaiting<V>,
        Failure,
    >)
        ensures
            self@.next_id < u32::MAX ==> started(
                r,
                self@,
                texture_calls(self@.next_id, width, height, pixels),
                (Awaited::Texture { id: self@.next_id, width, height }),
            ),
            self@.next_id == u32::MAX ==> out_of_ids(r, self@, GlObject::Texture),
    {
        let mut t = self;
        match t.gl.fresh_id() {
            Some(id) => {
                upload_texture(&mut t.gl, id, width, height, pixels);
                Ok(Awaiting { tetra: t, awaited: Awaited::Texture { id, width, height } })
            },
            None => Err(t.fail(GlError::ResourceCreation(GlObject::Texture), Vec::new())),
        }
    }

    /// The first resource that a frame needs and this renderer lacks.
    pub fn lacking(&self) -> (m: Option<Resource>)
        ensures
            m == missing(self@),
    {
        let f = self.features;
        let info = match (&self.program, &self.program_info) {
            (Some(_), Some(i)) => i,
            _ => {
                return Some(Resource::Program);
            },
        };
        if self.vert_buffer.is_none() {
            return Some(Resource::PositionBuffer);
        }
        if f.lit && self.normal_buffer.is_none() {
            return Some(Resource::NormalBuffer);
        }
        if f.textured && self.tex_coord_buffer.is_none() {
            return Some(Resource::TexCoordBuffer);
        }
        if f.textured && self.texture.is_none() {
            return Some(Resource::Texture);
        }
        let a = info.attrib_locs;
        let u = info.uniform_locs;
        if f.lit && (a.normal.is_none() || u.normal_matrix.is_none()) {
            return Some(Resource::Program);
        }
        if f.textured && (a.tex_coord.is_none() || u.sampler.is_none()) {
            return Some(Resource::Program);
        }
        None
    }

    /// The calls of one frame.
    fn frame(&self) -> (c: Vec<GlCall>)
        requires
            missing(self@) is None,
        ensures
            c@ == frame_calls(self@),
    {
        let f = self.features;
        let info = self.program_info.unwrap();
        let a = info.attrib_locs;
        let u = info.uniform_locs;
        let mut calls: Vec<GlCall> = Vec::new();
        calls.push(GlCall::UseProgram { program: Some(self.program.unwrap().id) });
        if f.textured {
            push_sampler(&mut calls, self.texture.unwrap().id, u.sampler.unwrap());
        }
        push_clear(&mut calls);
        push_attrib(&mut calls, buffer_id(&self.vert_buffer), a.position, 3);
        if f.lit {
            push_attrib(&mut calls, buffer_id(&self.normal_buffer), a.normal.unwrap(), 3);
        }
        if f.textured {
            push_attrib(&mut calls, buffer_id(&self.tex_coord_buffer), a.tex_coord.unwrap(), 2);
        }
        calls.push(
            GlCall::UniformMatrix4 {
                location: u.model_view_projection,
                matrix: FrameMatrix::ModelViewProjection,
            },
        );
        if f.lit {
            calls.push(
                GlCall::UniformMatrix4 {
                    location: u.normal_matrix.unwrap(),
                    matrix: FrameMatrix::Normal,
                },
            );
        }
        push_dispatch(&mut calls, self);
        if f.textured {
            calls.push(GlCall::BindBuffer { target: BufferTarget::Array, buffer: None });
        }
        if f.lit {
            calls.push(GlCall::BindBuffer { target: BufferTarget::Array, buffer: None });
        }
        calls.push(GlCall::BindBuffer { target: BufferTarget::Array, buffer: None });
        if f.textured {
            calls.push(GlCall::BindTexture { texture: None });
        }
        calls.push(GlCall::UseProgram { program: None });
        assert(calls@ =~= frame_calls(self@));
        calls
    }

    /// Issues one frame: the program, the texture on unit 0, a cleared
    /// target, each attribute fed from its buffer, the model-view-projection
    /// matrix and, when lit, the normal matrix, a
    /// triangle-list draw of every index (or, without an index buffer, of
    /// every vertex), and the bindings undone in reverse order. The host
    /// computes the matrices for the frame's time when it performs the
    /// uploads. Without everything the frame needs, nothing is issued.
    pub fn draw(&mut self) -> (r: Result<(), GlError>)
        ensures
            missing(old(self)@) is Some ==> result_view(r) == Err::<(), GlErrorView>(
                GlErrorView::NotReady(missing(old(self)@)->Some_0),
            ) && final(self)@.calls == old(self)@.calls,
            missing(old(self)@) is None ==> r is Ok && final(self)@.calls == old(self)@.calls
                + frame_calls(old(self)@),
            same_setup(final(self)@, old(self)@),
            same_objects(final(self)@, old(self)@),
    {
        match self.lacking() {
            Some(m) => Err(GlError::NotReady(m)),
            None => {
                let calls = self.frame();
                self.gl.issue_all(calls);
                Ok(())
            },
        }
    }
}

impl<V> Awaiting<V> {
    /// Takes the issued calls, in order, for the host to perform.
    pub fn take_calls(&mut self) -> (r: Vec<GlCall>)
        ensures
            r@ == old(self)@.tetra.calls,
            final(self)@.tetra.calls == Seq::<GlCall>::empty(),
            same_setup(final(self)@.tetra, old(self)@.tetra),
            same_objects(final(self)@.tetra, old(self)@.tetra),
            final(self)@.awaited == old(self)@.awaited,
    {
        self.tetra.take_calls()
    }

    /// Finishes the awaited step with the host's replies to its answering
    /// calls, in order.
    pub fn resume(self, replies: &Vec<Reply>) -> (r: Result<Tetra<V>, Failure>)
        ensures
            resumed(self@, replies@, r),
    {
        let Awaiting { tetra, awaited } = self;
        match awaited {
            Awaited::Shader { id, stage } => match Shader::new(id, stage, replies) {
                Ok(s) => {
                    let mut t = tetra;
                    t.shaders.push(s);
                    Ok(t)
                },
                Err(e) => {
                    let mut cleanup: Vec<GlCall> = Vec::new();
                    if is_created(replies, 0) {
                        cleanup.push(GlCall::DeleteShader { shader: id });
                    }
                    proof {
                        if created(replies@, 0) {
                            assert(cleanup@ =~= seq![GlCall::DeleteShader { shader: id }]);
                        } else {
                            assert(cleanup@ =~= Seq::<GlCall>::empty());
                        }
                    }
                    let f = tetra.fail(e, cleanup);
                    Err(f)
                },
            },
            Awaited::Program { id, shaders } => {
                let features = tetra.features;
                let outcome = match Program::new(id, replies) {
                    Err(e) => Err(e),
                    Ok(p) => match ProgramInfo::new(id, features, replies, 3) {
                        Err(e) => Err(e),
                        Ok(i) => Ok((p, i)),
                    },
                };
                match outcome {
                    Ok((p, info)) => {
                        let mut t = tetra;
                        let ghost c0 = t.gl.calls@;
                        delete_program(&mut t.gl, &t.program);
                                        delete_shaders(&mut t.gl, &shaders);
                        assert(t.gl.calls@ =~= c0 + (program_delete(t.program) + shader_deletes(shaders@)));
                        t.program = Some(p);
                        t.program_info = Some(info);
                        Ok(t)
                    },
                    Err(e) => {
                        let mut t = tetra;
                        let ghost c0 = t.gl.calls@;
                        if is_created(replies, 0) {
                            t.gl.issue(GlCall::DeleteProgram { program: id });
                        }
                                        delete_shaders(&mut t.gl, &shaders);
                        let ghost cleanup = (if created(replies@, 0) {
                            seq![GlCall::DeleteProgram { program: id }]
                        } else {
                            seq![]
                        }) + shader_deletes(shaders@);
                        assert(t.gl.calls@ =~= c0 + cleanup);
                        let f = t.fail(e, Vec::new());
                        assert(f.calls@ =~= c0 + cleanup + release_calls(tetra@));
                        Err(f)
                    },
                }
            },
            Awaited::VertexBuffer { slot, id, array } => match GlBuffer::new(
                id,
                BufferTarget::Array,
                array,
                replies,
            ) {
                Ok(b) => {
                    let mut t = tetra;
                    match slot {
                        VertexSlot::Position => {
                            delete_buffer(&mut t.gl, &t.vert_buffer);
                            t.vert_buffer = Some(b);
                        },
                        VertexSlot::Normal => {
                            delete_buffer(&mut t.gl, &t.normal_buffer);
                            t.normal_buffer = Some(b);
                        },
                        VertexSlot::TexCoord => {
                            delete_buffer(&mut t.gl, &t.tex_coord_buffer);
                            t.tex_coord_buffer = Some(b);
                        },
                    }
                    Ok(t)
                },
                Err(e) => {
                    let f = tetra.fail(e, Vec::new());
                    assert(f.calls@ =~= tetra.gl.calls@ + seq![] + release_calls(tetra@));
                    Err(f)
                },
            },
            Awaited::IndexBuffer { id, array } => match GlBuffer::new(
                id,
                BufferTarget::ElementArray,
                array,
                replies,
            ) {
                Ok(b) => {
                    let mut t = tetra;
                    delete_buffer(&mut t.gl, &t.element_buffer);
                    t.element_buffer = Some(b);
                    Ok(t)
                },
                Err(e) => {
                    let f = tetra.fail(e, Vec::new());
                    assert(f.calls@ =~= tetra.gl.calls@ + seq![] + release_calls(tetra@));
                    Err(f)
                },
            },
            Awaited::Texture { id, width, height } => match Texture2D::new(id, width, height, replies) {
                Ok(x) => {
                    let mut t = tetra;
                    delete_texture(&mut t.gl, &t.texture);
                    t.texture = Some(x);
                    Ok(t)
                },
                Err(e) => {
                    let mut cleanup: Vec<GlCall> = Vec::new();
                    if is_created(replies, 0) {
                        cleanup.push(GlCall::BindTexture { texture: None });
                        cleanup.push(GlCall::DeleteTexture { texture: id });
                    }
                    proof {
                        if created(replies@, 0) {
                            assert(cleanup@ =~= seq![
                                GlCall::BindTexture { texture: None },
                                GlCall::DeleteTexture { texture: id },
                            ]);
                        } else {
                            assert(cleanup@ =~= Seq::<GlCall>::empty());
                        }
                    }
                    let f = tetra.fail(e, cleanup);
                    Err(f)
                },
            },
        }
    }
}

} // verus!
