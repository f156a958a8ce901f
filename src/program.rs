use vstd::prelude::*;

use crate::error::{result_view, GlError, GlErrorView, GlObject};
use crate::gl::{created, flag_set, is_created, is_flag_set, log_or, log_text, GlCall, Reply, WebGl};
use crate::shader::Shader;

verus! {

/// The log of a failed link where the driver gives none.
pub open spec fn program_log_fallback() -> Seq<char> {
    "Unknown error creating program object"@
}

/// A linked program, named by its object id.
#[derive(Clone, Copy, Debug, PartialEq, Eq, Structural)]
pub struct Program {
    pub id: u32,
}

/// Attaching each shader to program `id`, in sequence order.
pub open spec fn attach_calls(id: u32, shaders: Seq<Shader>) -> Seq<GlCall> {
    shaders.map_values(|s: Shader| GlCall::AttachShader { program: id, shader: s.id })
}

/// The calls that create program object `id`, attach the shaders, link, and
/// ask for the outcome. The host answers with the creation, the link status
/// and the info log, in that order.
pub open spec fn link_calls(id: u32, shaders: Seq<Shader>) -> Seq<GlCall> {
    seq![GlCall::CreateProgram { program: id }] + attach_calls(id, shaders) + seq![
        GlCall::LinkProgram { program: id },
        GlCall::GetLinkStatus { program: id },
        GlCall::GetProgramInfoLog { program: id },
    ]
}

/// What the first three replies to `link_calls` make of the program.
pub open spec fn program_result(id: u32, r: Seq<Reply>) -> Result<Program, GlErrorView> {
    if !created(r, 0) {
        Err(GlErrorView::ResourceCreation(GlObject::Program))
    } else if flag_set(r, 1) {
        Ok(Program { id })
    } else {
        Err(GlErrorView::Link(log_or(r, 2, program_log_fallback())))
    }
}

/// Issues the calls that link `shaders`, attached in order, into program `id`.
pub fn link_program(gl: &mut WebGl, id: u32, shaders: &Vec<Shader>)
    ensures
        final(gl).calls@ == old(gl).calls@ + link_calls(id, shaders@),
        final(gl).next_id == old(gl).next_id,
{
    let mut calls: Vec<GlCall> = Vec::new();
    calls.push(GlCall::CreateProgram { program: id });
    let mut i: usize = 0;
    while i < shaders.len()
        invariant
            i <= shaders@.len(),
            calls@ == seq![GlCall::CreateProgram { program: id }] + attach_calls(
                id,
                shaders@.subrange(0, i as int),
            ),
        decreases shaders.len() - i,
    {
        calls.push(GlCall::AttachShader { program: id, shader: shaders[i].id });
        assert(shaders@.subrange(0, i + 1) =~= shaders@.subrange(0, i as int).push(shaders@[i as int]));
        assert(attach_calls(id, shaders@.subrange(0, i + 1)) =~= attach_calls(
            id,
            shaders@.subrange(0, i as int),
        ).push(GlCall::AttachShader { program: id, shader: shaders@[i as int].id }));
        i = i + 1;
    }
    assert(shaders@.subrange(0, i as int) =~= shaders@);
    calls.push(GlCall::LinkProgram { program: id });
    calls.push(GlCall::GetLinkStatus { program: id });
    calls.push(GlCall::GetProgramInfoLog { program: id });
    assert(calls@ =~= link_calls(id, shaders@));
    gl.issue_all(calls);
}

impl Program {
    /// The program that the first three replies to `link_calls(id, ..)`
    /// give: usable only where the object was created and linked.
    pub fn new(id: u32, replies: &Vec<Reply>) -> (r: Result<Program, GlError>)
        ensures
            result_view(r) == program_result(id, replies@),
    {
        if !is_created(replies, 0) {
            Err(GlError::ResourceCreation(GlObject::Program))
        } else if is_flag_set(replies, 1) {
            Ok(Program { id })
        } else {
            Err(GlError::Link(log_text(replies, 2, "Unknown error creating program object")))
        }
    }

    /// Makes this the current program.
    pub fn set_used(&self, gl: &mut WebGl)
        ensures
            final(gl).calls@ == old(gl).calls@.push(GlCall::UseProgram { program: Some(self.id) }),
            final(gl).next_id == old(gl).next_id,
    {
        gl.issue(GlCall::UseProgram { program: Some(self.id) });
    }

    /// Leaves no program current.
    pub fn set_unused(&self, gl: &mut WebGl)
        ensures
            final(gl).calls@ == old(gl).calls@.push(GlCall::UseProgram { program: None }),
            final(gl).next_id == old(gl).next_id,
    {
        gl.issue(GlCall::UseProgram { program: None });
    }
}

} // verus!
