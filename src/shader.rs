use vstd::prelude::*;

use crate::error::{result_view, GlError, GlErrorView, GlObject};
use crate::gl::{created, flag_set, is_created, is_flag_set, log_or, log_text, GlCall, Reply, Stage, WebGl};

verus! {

/// The log of a failed compile where the driver gives none.
pub open spec fn shader_log_fallback() -> Seq<char> {
    "unknown error creating shader"@
}

/// A compiled shader stage, named by its object id.
#[derive(Clone, Copy, Debug, PartialEq, Eq, Structural)]
pub struct Shader {
    pub id: u32,
    pub stage: Stage,
}

/// The calls that create shader object `id` for `stage`, compile `source`
/// into it, and ask for the outcome. The host answers with the creation, the
/// compile status and the info log, in that order.
pub open spec fn compile_calls(id: u32, stage: Stage, source: String) -> Seq<GlCall> {
    seq![
        GlCall::CreateShader { shader: id, stage },
        GlCall::ShaderSource { shader: id, source },
        GlCall::CompileShader { shader: id },
        GlCall::GetCompileStatus { shader: id },
        GlCall::GetShaderInfoLog { shader: id },
    ]
}

/// What the replies to `compile_calls` make of the shader.
pub open spec fn compile_result(id: u32, stage: Stage, r: Seq<Reply>) -> Result<
    Shader,
    GlErrorView,
> {
    if !created(r, 0) {
        Err(GlErrorView::ResourceCreation(GlObject::Shader))
    } else if flag_set(r, 1) {
        Ok(Shader { id, stage })
    } else {
        Err(GlErrorView::Compile(log_or(r, 2, shader_log_fallback())))
    }
}

/// Issues the calls that compile `source` as a `stage` shader into object `id`.
pub fn compile_shader(gl: &mut WebGl, id: u32, stage: Stage, source: String)
    ensures
        final(gl).calls@ == old(gl).calls@ + compile_calls(id, stage, source),
        final(gl).next_id == old(gl).next_id,
{
    let ghost s = source;
    let mut calls: Vec<GlCall> = Vec::new();
    calls.push(GlCall::CreateShader { shader: id, stage });
    calls.push(GlCall::ShaderSource { shader: id, source });
    calls.push(GlCall::CompileShader { shader: id });
    calls.push(GlCall::GetCompileStatus { shader: id });
    calls.push(GlCall::GetShaderInfoLog { shader: id });
    assert(calls@ =~= compile_calls(id, stage, s));
    gl.issue_all(calls);
}

impl Shader {
    /// The shader that the replies to `compile_calls(id, stage, ..)` give:
    /// a usable stage only where the object was created and compiled.
    pub fn new(id: u32, stage: Stage, replies: &Vec<Reply>) -> (r: Result<Shader, GlError>)
        ensures
            result_view(r) == compile_result(id, stage, replies@),
    {
        if !is_created(replies, 0) {
            Err(GlError::ResourceCreation(GlObject::Shader))
        } else if is_flag_set(replies, 1) {
            Ok(Shader { id, stage })
        } else {
            Err(GlError::Compile(log_text(replies, 2, "unknown error creating shader")))
        }
    }
}

/// A compile that the driver reports as failed never gives a usable shader:
/// the outcome is a compile error.
pub proof fn failed_compile_gives_no_shader(id: u32, stage: Stage, r: Seq<Reply>)
    requires
        created(r, 0),
        !flag_set(r, 1),
    ensures
        compile_result(id, stage, r) is Err,
        compile_result(id, stage, r)->Err_0 is Compile,
{
}

} // verus!
