use vstd::multiset::Multiset;
use vstd::prelude::*;

verus! {

/// The stage a shader object compiles for.
#[derive(Clone, Copy, Debug, PartialEq, Eq, Structural)]
pub enum Stage {
    Vertex,
    Fragment,
}

/// The binding point of a buffer object.
#[derive(Clone, Copy, Debug, PartialEq, Eq, Structural)]
pub enum BufferTarget {
    /// Per-vertex attribute data.
    Array,
    /// 16-bit triangle indices.
    ElementArray,
}

/// The vertex attributes a program may be asked for, in their declared order.
#[derive(Clone, Copy, Debug, PartialEq, Eq, Structural)]
pub enum Attribute {
    Position,
    Normal,
    TexCoord,
}

/// The uniforms a program may be asked for, in their declared order.
#[derive(Clone, Copy, Debug, PartialEq, Eq, Hash, Structural)]
pub enum Uniform {
    ModelViewProjection,
    NormalMatrix,
    Sampler,
}

impl Attribute {
    pub open spec fn spec_name(self) -> Seq<char> {
        match self {
            Attribute::Position => "a_position"@,
            Attribute::Normal => "a_normal"@,
            Attribute::TexCoord => "a_tex_coord"@,
        }
    }

    /// The name the vertex stage declares this attribute under.
    pub fn name(&self) -> (r: &'static str)
        ensures
            r@ == self.spec_name(),
    {
        match self {
            Attribute::Position => "a_position",
            Attribute::Normal => "a_normal",
            Attribute::TexCoord => "a_tex_coord",
        }
    }
}

impl Uniform {
    pub open spec fn spec_name(self) -> Seq<char> {
        match self {
            Uniform::ModelViewProjection => "u_model_view_projection"@,
            Uniform::NormalMatrix => "u_normal_matrix"@,
            Uniform::Sampler => "u_sampler"@,
        }
    }

    /// The name the shaders declare this uniform under.
    pub fn name(&self) -> (r: &'static str)
        ensures
            r@ == self.spec_name(),
    {
        match self {
            Uniform::ModelViewProjection => "u_model_view_projection",
            Uniform::NormalMatrix => "u_normal_matrix",
            Uniform::Sampler => "u_sampler",
        }
    }
}

/// A resolved uniform slot: the host keeps the native location it found for
/// `uniform` on `program` and looks it up by this pair.
#[derive(Clone, Copy, Debug, PartialEq, Eq, Structural)]
pub struct UniformLoc {
    pub program: u32,
    pub uniform: Uniform,
}

/// A sampler parameter of the bound 2D texture.
#[derive(Clone, Copy, Debug, PartialEq, Eq, Structural)]
pub enum TexParam {
    WrapS,
    WrapT,
    MinFilter,
}

/// A value for a sampler parameter.
#[derive(Clone, Copy, Debug, PartialEq, Eq, Structural)]
pub enum TexValue {
    ClampToEdge,
    Linear,
}

/// A per-frame matrix that the host computes when it performs the upload:
/// the model-view-projection matrix, or the transposed inverse of the
/// model-view matrix.
#[derive(Clone, Copy, Debug, PartialEq, Eq, Structural)]
pub enum FrameMatrix {
    ModelViewProjection,
    Normal,
}

/// One call on the graphics context. Objects are named by ids that the
/// library hands out; the host maps each id to the native object it created.
#[derive(Clone, Debug, PartialEq, Eq)]
#[allow(inconsistent_fields)]
pub enum GlCall {
    Viewport { width: u32, height: u32 },
    /// Answered by `Reply::Created`.
    CreateShader { shader: u32, stage: Stage },
    ShaderSource { shader: u32, source: String },
    CompileShader { shader: u32 },
    /// Answered by `Reply::Flag`.
    GetCompileStatus { shader: u32 },
    /// Answered by `Reply::Text`.
    GetShaderInfoLog { shader: u32 },
    DeleteShader { shader: u32 },
    /// Answered by `Reply::Created`.
    CreateProgram { program: u32 },
    AttachShader { program: u32, shader: u32 },
    LinkProgram { program: u32 },
    /// Answered by `Reply::Flag`.
    GetLinkStatus { program: u32 },
    /// Answered by `Reply::Text`.
    GetProgramInfoLog { program: u32 },
    /// Answered by `Reply::Location`.
    GetAttribLocation { program: u32, attribute: Attribute },
    /// Answered by `Reply::Found`; the host keeps the location it found.
    GetUniformLocation { program: u32, uniform: Uniform },
    UseProgram { program: Option<u32> },
    DeleteProgram { program: u32 },
    /// Answered by `Reply::Created`.
    CreateBuffer { buffer: u32 },
    BindBuffer { target: BufferTarget, buffer: Option<u32> },
    /// Uploads the elements handed to the step that issued it, verbatim,
    /// as static data, to the buffer bound at `target`.
    BufferData { target: BufferTarget, buffer: u32 },
    DeleteBuffer { buffer: u32 },
    /// Answered by `Reply::Created`.
    CreateTexture { texture: u32 },
    /// Makes texture unit 0 the active one.
    ActiveTexture0,
    BindTexture { texture: Option<u32> },
    /// Fills the bound 2D texture with RGBA8 pixels; answered by
    /// `Reply::Uploaded`.
    TexImage2d { texture: u32, width: u32, height: u32, pixels: Vec<u8> },
    GenerateMipmap,
    TexParameter { param: TexParam, value: TexValue },
    DeleteTexture { texture: u32 },
    /// Sets an integer uniform (the sampler's texture unit).
    Uniform1i { location: UniformLoc, value: i32 },
    /// Uploads a 4x4 column-major matrix, not transposed.
    UniformMatrix4 { location: UniformLoc, matrix: FrameMatrix },
    /// Clear colour: opaque black.
    ClearColorBlack,
    /// Clear depth: 1.0.
    ClearDepthFar,
    EnableDepthTest,
    DepthFuncLessEqual,
    /// Clears the colour and the depth buffer.
    ClearColorAndDepth,
    /// `size` floats per vertex, not normalised, tightly packed, offset 0.
    VertexAttribPointer { location: u32, size: u32 },
    EnableVertexAttribArray { location: u32 },
    /// Indexed triangle list of `count` 16-bit indices from offset 0.
    DrawElements { count: usize },
    /// Triangle list of `count` vertices from vertex 0.
    DrawArrays { count: usize },
}

/// What the host hands back for a call that answers. The host replies to
/// the answering calls of a step in order, and stops at the first creation
/// or upload that failed.
#[derive(Clone, Debug, PartialEq, Eq)]
pub enum Reply {
    /// Whether a native object came back.
    Created(bool),
    /// A status parameter as a boolean, if it was one.
    Flag(Option<bool>),
    /// An info log, if the driver gave one.
    Text(Option<String>),
    /// An attribute location; negative when the name is unknown.
    Location(i32),
    /// Whether a uniform location came back.
    Found(bool),
    /// Whether the pixel upload went through.
    Uploaded(bool),
}

/// The library's side of one graphics context: the calls issued and not yet
/// taken by the host, and the next object id to hand out.
pub struct WebGl {
    pub calls: Vec<GlCall>,
    pub next_id: u32,
}

impl WebGl {
    pub fn new() -> (r: WebGl)
        ensures
            r.calls@ == Seq::<GlCall>::empty(),
            r.next_id == 1,
    {
        WebGl { calls: Vec::new(), next_id: 1 }
    }

    /// Appends one call to the log.
    pub fn issue(&mut self, call: GlCall)
        ensures
            final(self).calls@ == old(self).calls@.push(call),
            final(self).next_id == old(self).next_id,
    {
        self.calls.push(call);
    }

    /// Appends calls to the log, in order.
    pub fn issue_all(&mut self, calls: Vec<GlCall>)
        ensures
            final(self).calls@ == old(self).calls@ + calls@,
            final(self).next_id == old(self).next_id,
    {
        let mut calls = calls;
        self.calls.append(&mut calls);
    }

    /// Hands out a fresh object id, or `None` once the ids are used up.
    pub fn fresh_id(&mut self) -> (r: Option<u32>)
        ensures
            final(self).calls@ == old(self).calls@,
            old(self).next_id < u32::MAX ==> r == Some(old(self).next_id) && final(self).next_id
                == old(self).next_id + 1,
            old(self).next_id == u32::MAX ==> r is None && final(self).next_id == old(self).next_id,
    {
        if self.next_id < u32::MAX {
            let id = self.next_id;
            self.next_id = self.next_id + 1;
            Some(id)
        } else {
            None
        }
    }

    /// Takes the issued calls, in order, for the host to perform.
    pub fn take_calls(&mut self) -> (r: Vec<GlCall>)
        ensures
            r@ == old(self).calls@,
            final(self).calls@ == Seq::<GlCall>::empty(),
            final(self).next_id == old(self).next_id,
    {
        let mut taken: Vec<GlCall> = Vec::new();
        std::mem::swap(&mut taken, &mut self.calls);
        taken
    }
}

/// Reply `i` says that the object came back.
pub open spec fn created(r: Seq<Reply>, i: int) -> bool {
    0 <= i < r.len() && r[i] == Reply::Created(true)
}

/// Reply `i` is a status that reads as `true`.
pub open spec fn flag_set(r: Seq<Reply>, i: int) -> bool {
    0 <= i < r.len() && r[i] == Reply::Flag(Some(true))
}

/// Reply `i` says that the pixels went through.
pub open spec fn uploaded(r: Seq<Reply>, i: int) -> bool {
    0 <= i < r.len() && r[i] == Reply::Uploaded(true)
}

/// Reply `i` says that the uniform was found.
pub open spec fn found(r: Seq<Reply>, i: int) -> bool {
    0 <= i < r.len() && r[i] == Reply::Found(true)
}

/// The attribute slot that reply `i` gives, if it gives one.
pub open spec fn location_at(r: Seq<Reply>, i: int) -> Option<u32> {
    if 0 <= i < r.len() && r[i] is Location && r[i]->Location_0 >= 0 {
        Some(r[i]->Location_0 as u32)
    } else {
        None
    }
}

/// The log that reply `i` gives, or `fallback` where it gives none.
pub open spec fn log_or(r: Seq<Reply>, i: int, fallback: Seq<char>) -> Seq<char> {
    if 0 <= i < r.len() && r[i] is Text && r[i]->Text_0 is Some {
        r[i]->Text_0->Some_0@
    } else {
        fallback
    }
}

pub fn is_created(r: &Vec<Reply>, i: usize) -> (b: bool)
    ensures
        b == created(r@, i as int),
{
    i < r.len() && match &r[i] {
        Reply::Created(true) => true,
        _ => false,
    }
}

pub fn is_flag_set(r: &Vec<Reply>, i: usize) -> (b: bool)
    ensures
        b == flag_set(r@, i as int),
{
    i < r.len() && match &r[i] {
        Reply::Flag(Some(true)) => true,
        _ => false,
    }
}

pub fn is_uploaded(r: &Vec<Reply>, i: usize) -> (b: bool)
    ensures
        b == uploaded(r@, i as int),
{
    i < r.len() && match &r[i] {
        Reply::Uploaded(true) => true,
        _ => false,
    }
}

pub fn is_found(r: &Vec<Reply>, i: usize) -> (b: bool)
    ensures
        b == found(r@, i as int),
{
    i < r.len() && match &r[i] {
        Reply::Found(true) => true,
        _ => false,
    }
}

pub fn location_of(r: &Vec<Reply>, i: usize) -> (l: Option<u32>)
    ensures
        l == location_at(r@, i as int),
{
    if i < r.len() {
        match &r[i] {
            Reply::Location(l) => {
                if *l >= 0 {
                    Some(*l as u32)
                } else {
                    None
                }
            },
            _ => None,
        }
    } else {
        None
    }
}

pub fn log_text(r: &Vec<Reply>, i: usize, fallback: &str) -> (s: String)
    ensures
        s@ == log_or(r@, i as int, fallback@),
{
    if i < r.len() {
        match &r[i] {
            Reply::Text(Some(t)) => t.clone(),
            _ => fallback.to_owned(),
        }
    } else {
        fallback.to_owned()
    }
}

/// The objects bound on the context: the current program, the buffers at
/// each target and the 2D texture.
pub struct Bindings {
    pub program: Option<u32>,
    pub array_buffer: Option<u32>,
    pub element_buffer: Option<u32>,
    pub texture: Option<u32>,
}

/// Nothing bound.
pub open spec fn unbound() -> Bindings {
    Bindings { program: None, array_buffer: None, element_buffer: None, texture: None }
}

/// What one call does to the bindings.
pub open spec fn bind_effect(b: Bindings, c: GlCall) -> Bindings {
    match c {
        GlCall::UseProgram { program } => Bindings { program, ..b },
        GlCall::BindBuffer { target: BufferTarget::Array, buffer } => Bindings {
            array_buffer: buffer,
            ..b
        },
        GlCall::BindBuffer { target: BufferTarget::ElementArray, buffer } => Bindings {
            element_buffer: buffer,
            ..b
        },
        GlCall::BindTexture { texture } => Bindings { texture, ..b },
        _ => b,
    }
}

/// The bindings after performing `calls` from `b`, in order.
pub open spec fn bindings_after(b: Bindings, calls: Seq<GlCall>) -> Bindings
    decreases calls.len(),
{
    if calls.len() == 0 {
        b
    } else {
        bindings_after(bind_effect(b, calls[0]), calls.drop_first())
    }
}

/// Performing two runs of calls one after the other.
pub broadcast proof fn lemma_bindings_after_concat(b: Bindings, s: Seq<GlCall>, t: Seq<GlCall>)
    ensures
        #[trigger] bindings_after(b, s + t) == bindings_after(bindings_after(b, s), t),
    decreases s.len(),
{
    if s.len() == 0 {
        assert(s + t =~= t);
    } else {
        assert((s + t).drop_first() =~= s.drop_first() + t);
        lemma_bindings_after_concat(bind_effect(b, s[0]), s.drop_first(), t);
    }
}

/// Performing one more call.
pub broadcast proof fn lemma_bindings_after_push(b: Bindings, s: Seq<GlCall>, c: GlCall)
    ensures
        #[trigger] bindings_after(b, s.push(c)) == bind_effect(bindings_after(b, s), c),
{
    reveal_with_fuel(bindings_after, 2);
    lemma_bindings_after_concat(b, s, seq![c]);
    assert(s + seq![c] =~= s.push(c));
    assert(seq![c].drop_first() =~= Seq::<GlCall>::empty());
    assert(seq![c][0] == c);
}

/// Performing no call.
pub broadcast proof fn lemma_bindings_after_empty(b: Bindings)
    ensures
        #[trigger] bindings_after(b, Seq::<GlCall>::empty()) == b,
{
}

pub broadcast group group_bindings {
    lemma_bindings_after_concat,
    lemma_bindings_after_push,
    lemma_bindings_after_empty,
}

/// A call that deletes an object.
pub open spec fn is_delete(c: GlCall) -> bool {
    ||| c is DeleteShader
    ||| c is DeleteProgram
    ||| c is DeleteBuffer
    ||| c is DeleteTexture
}

/// The deletions among `calls`, each counted as often as it occurs.
pub open spec fn deletions(calls: Seq<GlCall>) -> Multiset<GlCall>
    decreases calls.len(),
{
    if calls.len() == 0 {
        Multiset::empty()
    } else {
        deletion(calls[0]).add(deletions(calls.drop_first()))
    }
}

/// The deletion that one call is, if it is one.
pub open spec fn deletion(c: GlCall) -> Multiset<GlCall> {
    if is_delete(c) {
        Multiset::singleton(c)
    } else {
        Multiset::empty()
    }
}

pub broadcast proof fn lemma_deletions_concat(s: Seq<GlCall>, t: Seq<GlCall>)
    ensures
        #[trigger] deletions(s + t) == deletions(s).add(deletions(t)),
    decreases s.len(),
{
    if s.len() == 0 {
        assert(s + t =~= t);
        assert(deletions(s).add(deletions(t)) =~= deletions(t));
    } else {
        assert((s + t).drop_first() =~= s.drop_first() + t);
        lemma_deletions_concat(s.drop_first(), t);
        assert(deletions(s + t) =~= deletions(s).add(deletions(t)));
    }
}

pub broadcast proof fn lemma_deletions_push(s: Seq<GlCall>, c: GlCall)
    ensures
        #[trigger] deletions(s.push(c)) == deletions(s).add(deletion(c)),
{
    reveal_with_fuel(deletions, 2);
    lemma_deletions_concat(s, seq![c]);
    assert(s + seq![c] =~= s.push(c));
    assert(seq![c].drop_first() =~= Seq::<GlCall>::empty());
    assert(deletion(c).add(Multiset::empty()) =~= deletion(c));
}

pub broadcast proof fn lemma_deletions_empty()
    ensures
        #[trigger] deletions(Seq::<GlCall>::empty()) == Multiset::<GlCall>::empty(),
{
}

pub broadcast group group_deletions {
    lemma_deletions_concat,
    lemma_deletions_push,
    lemma_deletions_empty,
}

} // verus!
