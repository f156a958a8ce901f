use vstd::prelude::*;

use crate::error::{result_view, GlError, GlErrorView};
use crate::gl::{
    found, is_found, location_at, location_of, Attribute, GlCall, Reply, Uniform, UniformLoc, WebGl,
};

verus! {

/// Which optional inputs the shader pair reads, chosen once when the
/// renderer is built: normals and the normal matrix for lighting, texture
/// coordinates and the sampler for texturing.
#[derive(Clone, Copy, Debug, PartialEq, Eq, Structural)]
pub struct Features {
    pub lit: bool,
    pub textured: bool,
}

/// The attributes a program must have, in their declared order.
pub open spec fn required_attributes(f: Features) -> Seq<Attribute> {
    seq![Attribute::Position] + (if f.lit {
        seq![Attribute::Normal]
    } else {
        seq![]
    }) + (if f.textured {
        seq![Attribute::TexCoord]
    } else {
        seq![]
    })
}

/// The uniforms a program must have, in their declared order.
pub open spec fn required_uniforms(f: Features) -> Seq<Uniform> {
    seq![Uniform::ModelViewProjection] + (if f.lit {
        seq![Uniform::NormalMatrix]
    } else {
        seq![]
    }) + (if f.textured {
        seq![Uniform::Sampler]
    } else {
        seq![]
    })
}

/// Position of the third input in the required lists: after the lighting
/// input where there is one.
pub open spec fn third(f: Features) -> int {
    if f.lit {
        2
    } else {
        1
    }
}

/// The calls that look up every required attribute, then every required
/// uniform, on `program`. The host answers each, in that order.
pub open spec fn reflect_calls(program: u32, f: Features) -> Seq<GlCall> {
    required_attributes(f).map_values(
        |a: Attribute| GlCall::GetAttribLocation { program, attribute: a },
    ) + required_uniforms(f).map_values(
        |u: Uniform| GlCall::GetUniformLocation { program, uniform: u },
    )
}

/// Resolved attribute slots of one program.
#[derive(Clone, Copy, Debug, PartialEq, Eq, Structural)]
pub struct AttribLocs {
    pub position: u32,
    pub normal: Option<u32>,
    pub tex_coord: Option<u32>,
}

/// Resolved uniform slots of one program.
#[derive(Clone, Copy, Debug, PartialEq, Eq, Structural)]
pub struct UniformLocs {
    pub model_view_projection: UniformLoc,
    pub normal_matrix: Option<UniformLoc>,
    pub sampler: Option<UniformLoc>,
}

/// Everything resolved on one program.
#[derive(Clone, Copy, Debug, PartialEq, Eq, Structural)]
pub struct ProgramInfo {
    pub attrib_locs: AttribLocs,
    pub uniform_locs: UniformLocs,
}

/// What the attribute replies, from `base` on, make of the attribute slots:
/// the first required attribute without a slot is reported.
pub open spec fn attrib_result(f: Features, r: Seq<Reply>, base: int) -> Result<
    AttribLocs,
    GlErrorView,
> {
    if location_at(r, base) is None {
        Err(GlErrorView::MissingAttribute(Attribute::Position))
    } else if f.lit && location_at(r, base + 1) is None {
        Err(GlErrorView::MissingAttribute(Attribute::Normal))
    } else if f.textured && location_at(r, base + third(f)) is None {
        Err(GlErrorView::MissingAttribute(Attribute::TexCoord))
    } else {
        Ok(
            AttribLocs {
                position: location_at(r, base)->Some_0,
                normal: if f.lit {
                    location_at(r, base + 1)
                } else {
                    None
                },
                tex_coord: if f.textured {
                    location_at(r, base + third(f))
                } else {
                    None
                },
            },
        )
    }
}

/// What the uniform replies, from `base` on, make of the uniform slots of
/// `program`: the first required uniform not found is reported.
pub open spec fn uniform_result(program: u32, f: Features, r: Seq<Reply>, base: int) -> Result<
    UniformLocs,
    GlErrorView,
> {
    if !found(r, base) {
        Err(GlErrorView::MissingUniform(Uniform::ModelViewProjection))
    } else if f.lit && !found(r, base + 1) {
        Err(GlErrorView::MissingUniform(Uniform::NormalMatrix))
    } else if f.textured && !found(r, base + third(f)) {
        Err(GlErrorView::MissingUniform(Uniform::Sampler))
    } else {
        Ok(
            UniformLocs {
                model_view_projection: UniformLoc {
                    program,
                    uniform: Uniform::ModelViewProjection,
                },
                normal_matrix: if f.lit {
                    Some(UniformLoc { program, uniform: Uniform::NormalMatrix })
                } else {
                    None
                },
                sampler: if f.textured {
                    Some(UniformLoc { program, uniform: Uniform::Sampler })
                } else {
                    None
                },
            },
        )
    }
}

/// What the replies to `reflect_calls(program, f)`, from `base` on, make of
/// the program's slots: attributes are checked first, then uniforms.
pub open spec fn info_result(program: u32, f: Features, r: Seq<Reply>, base: int) -> Result<
    ProgramInfo,
    GlErrorView,
> {
    match attrib_result(f, r, base) {
        Err(e) => Err(e),
        Ok(a) => match uniform_result(program, f, r, base + required_attributes(f).len()) {
            Err(e) => Err(e),
            Ok(u) => Ok(ProgramInfo { attrib_locs: a, uniform_locs: u }),
        },
    }
}

/// Issues the lookups of every slot that `f` requires on `program`.
pub fn reflect_program(gl: &mut WebGl, program: u32, f: Features)
    ensures
        final(gl).calls@ == old(gl).calls@ + reflect_calls(program, f),
        final(gl).next_id == old(gl).next_id,
{
    let mut calls: Vec<GlCall> = Vec::new();
    calls.push(GlCall::GetAttribLocation { program, attribute: Attribute::Position });
    if f.lit {
        calls.push(GlCall::GetAttribLocation { program, attribute: Attribute::Normal });
    }
    if f.textured {
        calls.push(GlCall::GetAttribLocation { program, attribute: Attribute::TexCoord });
    }
    calls.push(GlCall::GetUniformLocation { program, uniform: Uniform::ModelViewProjection });
    if f.lit {
        calls.push(GlCall::GetUniformLocation { program, uniform: Uniform::NormalMatrix });
    }
    if f.textured {
        calls.push(GlCall::GetUniformLocation { program, uniform: Uniform::Sampler });
    }
    assert(calls@ =~= reflect_calls(program, f));
    gl.issue_all(calls);
}

/// The number of required attributes.
pub fn attribute_count(f: Features) -> (n: usize)
    ensures
        n == required_attributes(f).len(),
{
    let mut n: usize = 1;
    if f.lit {
        n = n + 1;
    }
    if f.textured {
        n = n + 1;
    }
    n
}

impl AttribLocs {
    /// The attribute slots that the replies from `base` on give.
    pub fn new(f: Features, replies: &Vec<Reply>, base: usize) -> (r: Result<AttribLocs, GlError>)
        requires
            base + 2 <= usize::MAX,
        ensures
            result_view(r) == attrib_result(f, replies@, base as int),
    {
        let position = match location_of(replies, base) {
            Some(l) => l,
            None => {
                return Err(GlError::MissingAttribute(Attribute::Position));
            },
        };
        let normal = if f.lit {
            match location_of(replies, base + 1) {
                Some(l) => Some(l),
                None => {
                    return Err(GlError::MissingAttribute(Attribute::Normal));
                },
            }
        } else {
            None
        };
        let third: usize = if f.lit {
            2
        } else {
            1
        };
        let tex_coord = if f.textured {
            match location_of(replies, base + third) {
                Some(l) => Some(l),
                None => {
                    return Err(GlError::MissingAttribute(Attribute::TexCoord));
                },
            }
        } else {
            None
        };
        Ok(AttribLocs { position, normal, tex_coord })
    }
}

impl UniformLocs {
    /// The uniform slots of `program` that the replies from `base` on give.
    pub fn new(program: u32, f: Features, replies: &Vec<Reply>, base: usize) -> (r: Result<
        UniformLocs,
        GlError,
    >)
        requires
            base + 2 <= usize::MAX,
        ensures
            result_view(r) == uniform_result(program, f, replies@, base as int),
    {
        if !is_found(replies, base) {
            return Err(GlError::MissingUniform(Uniform::ModelViewProjection));
        }
        if f.lit && !is_found(replies, base + 1) {
            return Err(GlError::MissingUniform(Uniform::NormalMatrix));
        }
        let third: usize = if f.lit {
            2
        } else {
            1
        };
        if f.textured && !is_found(replies, base + third) {
            return Err(GlError::MissingUniform(Uniform::Sampler));
        }
        Ok(
            UniformLocs {
                model_view_projection: UniformLoc { program, uniform: Uniform::ModelViewProjection },
                normal_matrix: if f.lit {
                    Some(UniformLoc { program, uniform: Uniform::NormalMatrix })
                } else {
                    None
                },
                sampler: if f.textured {
                    Some(UniformLoc { program, uniform: Uniform::Sampler })
                } else {
                    None
                },
            },
        )
    }
}

impl ProgramInfo {
    /// The slots of `program` that the replies to `reflect_calls(program, f)`,
    /// from `base` on, give.
    pub fn new(program: u32, f: Features, replies: &Vec<Reply>, base: usize) -> (r: Result<
        ProgramInfo,
        GlError,
    >)
        requires
            base + 5 <= usize::MAX,
        ensures
            result_view(r) == info_result(program, f, replies@, base as int),
    {
        let attrib_locs = match AttribLocs::new(f, replies, base) {
            Ok(a) => a,
            Err(e) => {
                return Err(e);
            },
        };
        let n = attribute_count(f);
        let uniform_locs = match UniformLocs::new(program, f, replies, base + n) {
            Ok(u) => u,
            Err(e) => {
                return Err(e);
            },
        };
        Ok(ProgramInfo { attrib_locs, uniform_locs })
    }
}

} // verus!
