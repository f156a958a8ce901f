use tetra::gl::{FrameMatrix, TexParam, TexValue, UniformLoc};
use tetra::{
    is_power_of_2, Attribute, Awaiting, BufferTarget, Failure, Features, GlCall, GlError,
    GlObject, Reply, Resource, Stage, Tetra, Uniform, VertexSlot,
};

const VERT: &str = "attribute vec4 a_position;\nuniform mat4 u_model_view_projection;\nvoid main() { gl_Position = u_model_view_projection * a_position; }";
const FRAG: &str = "void main() { gl_FragColor = vec4(1.0); }";

const TRIANGLE: [f32; 9] = [0.0, 0.0, 0.0, 1.0, 0.0, 0.0, 0.0, 1.0, 0.0];

/// A stand-in for the graphics context: performs calls by recording them,
/// answers queries as configured and tracks what is bound.
struct MockHost {
    performed: Vec<GlCall>,
    fail_create: Option<GlObject>,
    compile_ok: bool,
    compile_log: Option<String>,
    link_ok: bool,
    link_log: Option<String>,
    missing_attribute: Option<Attribute>,
    missing_uniform: Option<Uniform>,
    upload_ok: bool,
    program: Option<u32>,
    array_buffer: Option<u32>,
    element_buffer: Option<u32>,
    texture: Option<u32>,
}

impl MockHost {
    fn new() -> MockHost {
        MockHost {
            performed: Vec::new(),
            fail_create: None,
            compile_ok: true,
            compile_log: None,
            link_ok: true,
            link_log: None,
            missing_attribute: None,
            missing_uniform: None,
            upload_ok: true,
            program: None,
            array_buffer: None,
            element_buffer: None,
            texture: None,
        }
    }

    fn created(&self, kind: GlObject) -> Reply {
        Reply::Created(self.fail_create != Some(kind))
    }

    /// Performs `calls` in order and returns the answers, stopping at the
    /// first failed creation or upload.
    fn run(&mut self, calls: Vec<GlCall>) -> Vec<Reply> {
        let mut replies = Vec::new();
        for call in calls {
            let reply = match &call {
                GlCall::CreateShader { .. } => Some(self.created(GlObject::Shader)),
                GlCall::CreateProgram { .. } => Some(self.created(GlObject::Program)),
                GlCall::CreateBuffer { .. } => Some(self.created(GlObject::Buffer)),
                GlCall::CreateTexture { .. } => Some(self.created(GlObject::Texture)),
                GlCall::GetCompileStatus { .. } => Some(Reply::Flag(Some(self.compile_ok))),
                GlCall::GetShaderInfoLog { .. } => Some(Reply::Text(self.compile_log.clone())),
                GlCall::GetLinkStatus { .. } => Some(Reply::Flag(Some(self.link_ok))),
                GlCall::GetProgramInfoLog { .. } => Some(Reply::Text(self.link_log.clone())),
                GlCall::GetAttribLocation { attribute, .. } => {
                    if self.missing_attribute == Some(*attribute) {
                        Some(Reply::Location(-1))
                    } else {
                        Some(Reply::Location(match attribute {
                            Attribute::Position => 0,
                            Attribute::Normal => 1,
                            Attribute::TexCoord => 2,
                        }))
                    }
                }
                GlCall::GetUniformLocation { uniform, .. } => {
                    Some(Reply::Found(self.missing_uniform != Some(*uniform)))
                }
                GlCall::TexImage2d { .. } => Some(Reply::Uploaded(self.upload_ok)),
                GlCall::UseProgram { program } => {
                    self.program = *program;
                    None
                }
                GlCall::BindBuffer { target: BufferTarget::Array, buffer } => {
                    self.array_buffer = *buffer;
                    None
                }
                GlCall::BindBuffer { target: BufferTarget::ElementArray, buffer } => {
                    self.element_buffer = *buffer;
                    None
                }
                GlCall::BindTexture { texture } => {
                    self.texture = *texture;
                    None
                }
                _ => None,
            };
            self.performed.push(call);
            if let Some(r) = reply {
                let stop = matches!(r, Reply::Created(false) | Reply::Uploaded(false));
                replies.push(r);
                if stop {
                    break;
                }
            }
        }
        replies
    }

    fn nothing_bound(&self) -> bool {
        self.program.is_none()
            && self.array_buffer.is_none()
            && self.element_buffer.is_none()
            && self.texture.is_none()
    }
}

fn step(host: &mut MockHost, started: Result<Awaiting<f32>, Failure>) -> Result<Tetra<f32>, Failure> {
    let mut awaiting = match started {
        Ok(a) => a,
        Err(f) => return Err(f),
    };
    let calls = awaiting.take_calls();
    let replies = host.run(calls);
    awaiting.resume(&replies)
}

fn ok(r: Result<Tetra<f32>, Failure>) -> Tetra<f32> {
    match r {
        Ok(t) => t,
        Err(f) => panic!("step failed: {:?}", f.error),
    }
}

fn err(r: Result<Tetra<f32>, Failure>) -> Failure {
    match r {
        Ok(_) => panic!("step succeeded"),
        Err(f) => f,
    }
}

fn plain() -> Features {
    Features { lit: false, textured: false }
}

fn full() -> Features {
    Features { lit: true, textured: true }
}

/// A renderer with both shaders added and its program linked.
fn linked(host: &mut MockHost, features: Features) -> Tetra<f32> {
    let t: Tetra<f32> = Tetra::new(640, 480, features);
    let t = ok(step(host, t.add_vert_shader(VERT.to_string())));
    let t = ok(step(host, t.add_frag_shader(FRAG.to_string())));
    let mut t = ok(step(host, t.link_program()));
    host.run(t.take_calls());
    t
}

fn loaded_full(host: &mut MockHost) -> Tetra<f32> {
    let t = linked(host, full());
    let t = ok(step(host, t.load_vertices(VertexSlot::Position, TRIANGLE.to_vec())));
    let t = ok(step(host, t.load_vertices(VertexSlot::Normal, vec![0.0, 0.0, 1.0, 0.0, 0.0, 1.0, 0.0, 0.0, 1.0])));
    let t = ok(step(host, t.load_vertices(VertexSlot::TexCoord, vec![0.0, 0.0, 1.0, 0.0, 0.0, 1.0])));
    ok(step(host, t.load_texture(2, 2, vec![255; 16])))
}

#[test]
fn link_resolves_requested_slots() {
    let mut host = MockHost::new();
    let t = linked(&mut host, full());
    let program = t.program().expect("program");
    let info = t.program_info().expect("program info");
    assert_eq!(info.attrib_locs.position, 0);
    assert_eq!(info.attrib_locs.normal, Some(1));
    assert_eq!(info.attrib_locs.tex_coord, Some(2));
    assert_eq!(
        info.uniform_locs.model_view_projection,
        UniformLoc { program: program.id, uniform: Uniform::ModelViewProjection }
    );
    assert_eq!(
        info.uniform_locs.normal_matrix,
        Some(UniformLoc { program: program.id, uniform: Uniform::NormalMatrix })
    );
    assert_eq!(
        info.uniform_locs.sampler,
        Some(UniformLoc { program: program.id, uniform: Uniform::Sampler })
    );
    assert!(t.shaders().is_empty());
}

#[test]
fn plain_program_asks_only_for_position_and_matrix() {
    let mut host = MockHost::new();
    let t = linked(&mut host, plain());
    let info = t.program_info().expect("program info");
    assert_eq!(info.attrib_locs.normal, None);
    assert_eq!(info.attrib_locs.tex_coord, None);
    assert_eq!(info.uniform_locs.normal_matrix, None);
    assert_eq!(info.uniform_locs.sampler, None);
    let asked: Vec<&GlCall> = host
        .performed
        .iter()
        .filter(|c| matches!(c, GlCall::GetAttribLocation { .. } | GlCall::GetUniformLocation { .. }))
        .collect();
    assert_eq!(asked.len(), 2);
}

#[test]
fn link_attaches_shaders_in_order_then_deletes_them() {
    let mut host = MockHost::new();
    let t = linked(&mut host, plain());
    let p = t.program().expect("program").id;
    let attached: Vec<u32> = host
        .performed
        .iter()
        .filter_map(|c| match c {
            GlCall::AttachShader { program, shader } if *program == p => Some(*shader),
            _ => None,
        })
        .collect();
    assert_eq!(attached, vec![1, 2]);
    let deleted: Vec<u32> = host
        .performed
        .iter()
        .filter_map(|c| match c {
            GlCall::DeleteShader { shader } => Some(*shader),
            _ => None,
        })
        .collect();
    assert_eq!(deleted, vec![1, 2]);
}

#[test]
fn syntax_error_gives_compile_error() {
    let mut host = MockHost::new();
    host.compile_ok = false;
    host.compile_log = Some("ERROR: 0:1: 'x' : syntax error".to_string());
    let t: Tetra<f32> = Tetra::new(640, 480, plain());
    let f = err(step(&mut host, t.add_vert_shader("void main() { x }".to_string())));
    assert_eq!(f.error, GlError::Compile("ERROR: 0:1: 'x' : syntax error".to_string()));
    assert_eq!(f.calls, vec![GlCall::DeleteShader { shader: 1 }]);
}

#[test]
fn compile_error_without_log_uses_fallback() {
    let mut host = MockHost::new();
    let t: Tetra<f32> = Tetra::new(640, 480, plain());
    let t = ok(step(&mut host, t.add_vert_shader(VERT.to_string())));
    host.compile_ok = false;
    let f = err(step(&mut host, t.add_frag_shader("bad".to_string())));
    assert_eq!(f.error, GlError::Compile("unknown error creating shader".to_string()));
    assert_eq!(f.calls, vec![GlCall::DeleteShader { shader: 2 }, GlCall::DeleteShader { shader: 1 }]);
}

#[test]
fn link_error_keeps_driver_log() {
    let mut host = MockHost::new();
    let t: Tetra<f32> = Tetra::new(640, 480, plain());
    let t = ok(step(&mut host, t.add_vert_shader(VERT.to_string())));
    let t = ok(step(&mut host, t.add_frag_shader(FRAG.to_string())));
    host.link_ok = false;
    host.link_log = Some("varyings do not match".to_string());
    let f = err(step(&mut host, t.link_program()));
    assert_eq!(f.error, GlError::Link("varyings do not match".to_string()));
    assert_eq!(
        f.calls,
        vec![
            GlCall::DeleteProgram { program: 3 },
            GlCall::DeleteShader { shader: 1 },
            GlCall::DeleteShader { shader: 2 },
        ]
    );
}

#[test]
fn link_error_without_log_uses_fallback() {
    let mut host = MockHost::new();
    let t: Tetra<f32> = Tetra::new(640, 480, plain());
    let t = ok(step(&mut host, t.add_vert_shader(VERT.to_string())));
    host.link_ok = false;
    let f = err(step(&mut host, t.link_program()));
    assert_eq!(f.error, GlError::Link("Unknown error creating program object".to_string()));
}

#[test]
fn missing_position_attribute() {
    let mut host = MockHost::new();
    host.missing_attribute = Some(Attribute::Position);
    let t: Tetra<f32> = Tetra::new(640, 480, full());
    let t = ok(step(&mut host, t.add_vert_shader("void main() {}".to_string())));
    let t = ok(step(&mut host, t.add_frag_shader(FRAG.to_string())));
    let f = err(step(&mut host, t.link_program()));
    assert_eq!(f.error, GlError::MissingAttribute(Attribute::Position));
    assert_eq!(Attribute::Position.name(), "a_position");
    assert_eq!(
        f.calls,
        vec![
            GlCall::DeleteProgram { program: 3 },
            GlCall::DeleteShader { shader: 1 },
            GlCall::DeleteShader { shader: 2 },
        ]
    );
}

#[test]
fn missing_normal_attribute_is_reported_before_uniforms() {
    let mut host = MockHost::new();
    host.missing_attribute = Some(Attribute::Normal);
    host.missing_uniform = Some(Uniform::ModelViewProjection);
    let t: Tetra<f32> = Tetra::new(640, 480, full());
    let t = ok(step(&mut host, t.add_vert_shader(VERT.to_string())));
    let f = err(step(&mut host, t.link_program()));
    assert_eq!(f.error, GlError::MissingAttribute(Attribute::Normal));
}

#[test]
fn missing_sampler_uniform() {
    let mut host = MockHost::new();
    host.missing_uniform = Some(Uniform::Sampler);
    let t: Tetra<f32> = Tetra::new(640, 480, full());
    let t = ok(step(&mut host, t.add_vert_shader(VERT.to_string())));
    let f = err(step(&mut host, t.link_program()));
    assert_eq!(f.error, GlError::MissingUniform(Uniform::Sampler));
    assert_eq!(Uniform::Sampler.name(), "u_sampler");
}

#[test]
fn uniform_names() {
    assert_eq!(Uniform::ModelViewProjection.name(), "u_model_view_projection");
    assert_eq!(Uniform::NormalMatrix.name(), "u_normal_matrix");
    assert_eq!(Attribute::Normal.name(), "a_normal");
    assert_eq!(Attribute::TexCoord.name(), "a_tex_coord");
}

#[test]
fn failed_shader_creation() {
    let mut host = MockHost::new();
    host.fail_create = Some(GlObject::Shader);
    let t: Tetra<f32> = Tetra::new(640, 480, plain());
    let f = err(step(&mut host, t.add_vert_shader(VERT.to_string())));
    assert_eq!(f.error, GlError::ResourceCreation(GlObject::Shader));
    assert!(f.calls.is_empty());
}

#[test]
fn failed_program_creation_deletes_the_shaders() {
    let mut host = MockHost::new();
    let t: Tetra<f32> = Tetra::new(640, 480, plain());
    let t = ok(step(&mut host, t.add_vert_shader(VERT.to_string())));
    let t = ok(step(&mut host, t.add_frag_shader(FRAG.to_string())));
    host.fail_create = Some(GlObject::Program);
    let f = err(step(&mut host, t.link_program()));
    assert_eq!(f.error, GlError::ResourceCreation(GlObject::Program));
    assert_eq!(f.calls, vec![GlCall::DeleteShader { shader: 1 }, GlCall::DeleteShader { shader: 2 }]);
}

#[test]
fn failed_buffer_creation_releases_everything() {
    let mut host = MockHost::new();
    let t = linked(&mut host, plain());
    host.fail_create = Some(GlObject::Buffer);
    let f = err(step(&mut host, t.load_vertices(VertexSlot::Position, TRIANGLE.to_vec())));
    assert_eq!(f.error, GlError::ResourceCreation(GlObject::Buffer));
    assert_eq!(f.calls, vec![GlCall::DeleteProgram { program: 3 }]);
}

#[test]
fn refused_pixels_delete_the_texture() {
    let mut host = MockHost::new();
    let t = linked(&mut host, full());
    host.upload_ok = false;
    let f = err(step(&mut host, t.load_texture(4, 4, vec![0; 64])));
    assert_eq!(f.error, GlError::ResourceCreation(GlObject::Texture));
    assert_eq!(
        f.calls,
        vec![
            GlCall::BindTexture { texture: None },
            GlCall::DeleteTexture { texture: 4 },
            GlCall::DeleteProgram { program: 3 },
        ]
    );
}

#[test]
fn one_triangle_round_trip() {
    let mut host = MockHost::new();
    let t = linked(&mut host, plain());
    let mut t = ok(step(&mut host, t.load_vertices(VertexSlot::Position, TRIANGLE.to_vec())));
    let vb = t.vertex_buffer(VertexSlot::Position).as_ref().expect("position buffer");
    assert_eq!(vb.element_count(), 9);
    assert_eq!(vb.array(), &TRIANGLE.to_vec());
    assert_eq!(vb.target(), BufferTarget::Array);
    assert_eq!(t.draw(), Ok(()));
    let calls = t.take_calls();
    let draws: Vec<&GlCall> = calls
        .iter()
        .filter(|c| matches!(c, GlCall::DrawArrays { .. } | GlCall::DrawElements { .. }))
        .collect();
    assert_eq!(draws, vec![&GlCall::DrawArrays { count: 3 }]);
}

#[test]
fn buffer_upload_calls() {
    let mut host = MockHost::new();
    let t = linked(&mut host, plain());
    let mut a = t.load_indices(vec![0, 1, 2]).ok().expect("started");
    let calls = a.take_calls();
    assert_eq!(
        calls,
        vec![
            GlCall::CreateBuffer { buffer: 4 },
            GlCall::BindBuffer { target: BufferTarget::ElementArray, buffer: Some(4) },
            GlCall::BufferData { target: BufferTarget::ElementArray, buffer: 4 },
            GlCall::BindBuffer { target: BufferTarget::ElementArray, buffer: None },
        ]
    );
    let replies = host.run(calls);
    let t = ok(a.resume(&replies));
    assert_eq!(t.element_buffer().as_ref().map(|b| b.element_count()), Some(3));
    assert!(host.nothing_bound());
}

#[test]
fn power_of_two_texture_gets_mipmaps() {
    let mut host = MockHost::new();
    let t = linked(&mut host, full());
    let mut a = t.load_texture(256, 256, vec![0; 256 * 256 * 4]).ok().expect("started");
    let calls = a.take_calls();
    assert!(calls.contains(&GlCall::GenerateMipmap));
    assert!(!calls.iter().any(|c| matches!(c, GlCall::TexParameter { .. })));
    let replies = host.run(calls);
    let t = ok(a.resume(&replies));
    let x = t.texture().expect("texture");
    assert_eq!((x.width, x.height), (256, 256));
    assert!(host.nothing_bound());
}

#[test]
fn non_power_of_two_texture_is_clamped() {
    let mut host = MockHost::new();
    let t = linked(&mut host, full());
    let mut a = t.load_texture(100, 100, vec![0; 100 * 100 * 4]).ok().expect("started");
    let calls = a.take_calls();
    assert!(!calls.contains(&GlCall::GenerateMipmap));
    assert!(calls.contains(&GlCall::TexParameter { param: TexParam::WrapS, value: TexValue::ClampToEdge }));
    assert!(calls.contains(&GlCall::TexParameter { param: TexParam::WrapT, value: TexValue::ClampToEdge }));
    assert!(calls.contains(&GlCall::TexParameter { param: TexParam::MinFilter, value: TexValue::Linear }));
    assert_eq!(calls.last(), Some(&GlCall::BindTexture { texture: None }));
}

#[test]
fn powers_of_two() {
    assert!(!is_power_of_2(0));
    assert!(is_power_of_2(1));
    assert!(is_power_of_2(2));
    assert!(!is_power_of_2(3));
    assert!(is_power_of_2(256));
    assert!(!is_power_of_2(100));
    assert!(is_power_of_2(1 << 31));
    assert!(!is_power_of_2(u32::MAX));
    assert!(!is_power_of_2(96));
}

#[test]
fn draw_before_buffers_is_not_ready() {
    let mut host = MockHost::new();
    let mut t = linked(&mut host, plain());
    t.take_calls();
    assert_eq!(t.draw(), Err(GlError::NotReady(Resource::PositionBuffer)));
    assert!(t.take_calls().is_empty());
}

#[test]
fn draw_before_program_is_not_ready() {
    let mut t: Tetra<f32> = Tetra::new(640, 480, plain());
    t.take_calls();
    assert_eq!(t.draw(), Err(GlError::NotReady(Resource::Program)));
    assert!(t.take_calls().is_empty());
}

#[test]
fn draw_without_normals_or_texture_is_not_ready() {
    let mut host = MockHost::new();
    let t = linked(&mut host, full());
    let mut t = ok(step(&mut host, t.load_vertices(VertexSlot::Position, TRIANGLE.to_vec())));
    assert_eq!(t.draw(), Err(GlError::NotReady(Resource::NormalBuffer)));
    let t = ok(step(&mut host, t.load_vertices(VertexSlot::Normal, TRIANGLE.to_vec())));
    let mut t = ok(step(&mut host, t.load_vertices(VertexSlot::TexCoord, vec![0.0; 6])));
    assert_eq!(t.draw(), Err(GlError::NotReady(Resource::Texture)));
    let mut t = ok(step(&mut host, t.load_texture(1, 1, vec![0; 4])));
    t.take_calls();
    assert_eq!(t.draw(), Ok(()));
}

#[test]
fn draw_without_tex_coords_is_not_ready() {
    let mut host = MockHost::new();
    let t = linked(&mut host, Features { lit: false, textured: true });
    let mut t = ok(step(&mut host, t.load_vertices(VertexSlot::Position, TRIANGLE.to_vec())));
    assert_eq!(t.draw(), Err(GlError::NotReady(Resource::TexCoordBuffer)));
}

#[test]
fn end_to_end_single_triangle() {
    let mut host = MockHost::new();
    let t: Tetra<f32> = Tetra::new(640, 480, plain());
    let t = ok(step(&mut host, t.add_shader(Stage::Vertex, VERT.to_string())));
    let t = ok(step(&mut host, t.add_shader(Stage::Fragment, FRAG.to_string())));
    let t = ok(step(&mut host, t.link_program()));
    let mut t = ok(step(&mut host, t.load_vertices(VertexSlot::Position, TRIANGLE.to_vec())));
    host.run(t.take_calls());
    assert_eq!(t.draw(), Ok(()));
    let frame = t.take_calls();
    let draws: Vec<&GlCall> = frame
        .iter()
        .filter(|c| matches!(c, GlCall::DrawArrays { .. } | GlCall::DrawElements { .. }))
        .collect();
    assert_eq!(draws, vec![&GlCall::DrawArrays { count: 3 }]);
    host.run(frame);
    assert!(host.nothing_bound());
}

#[test]
fn plain_frame_call_sequence() {
    let mut host = MockHost::new();
    let t = linked(&mut host, plain());
    let mut t = ok(step(&mut host, t.load_vertices(VertexSlot::Position, TRIANGLE.to_vec())));
    t.take_calls();
    t.draw().expect("frame");
    let mvp = UniformLoc { program: 3, uniform: Uniform::ModelViewProjection };
    assert_eq!(
        t.take_calls(),
        vec![
            GlCall::UseProgram { program: Some(3) },
            GlCall::ClearColorBlack,
            GlCall::ClearDepthFar,
            GlCall::EnableDepthTest,
            GlCall::DepthFuncLessEqual,
            GlCall::ClearColorAndDepth,
            GlCall::BindBuffer { target: BufferTarget::Array, buffer: Some(4) },
            GlCall::VertexAttribPointer { location: 0, size: 3 },
            GlCall::EnableVertexAttribArray { location: 0 },
            GlCall::UniformMatrix4 { location: mvp, matrix: FrameMatrix::ModelViewProjection },
            GlCall::DrawArrays { count: 3 },
            GlCall::BindBuffer { target: BufferTarget::Array, buffer: None },
            GlCall::UseProgram { program: None },
        ]
    );
}

#[test]
fn indexed_textured_lit_frame() {
    let mut host = MockHost::new();
    let t = loaded_full(&mut host);
    let mut t = ok(step(&mut host, t.load_indices(vec![0, 1, 2, 2, 1, 0])));
    host.run(t.take_calls());
    t.draw().expect("frame");
    let frame = t.take_calls();
    let e = t.element_buffer().as_ref().expect("index buffer").id();
    let x = t.texture().expect("texture").id;
    let sampler = UniformLoc { program: 3, uniform: Uniform::Sampler };
    assert_eq!(
        &frame[..4],
        &[
            GlCall::UseProgram { program: Some(3) },
            GlCall::ActiveTexture0,
            GlCall::BindTexture { texture: Some(x) },
            GlCall::Uniform1i { location: sampler, value: 0 },
        ]
    );
    assert!(frame.contains(&GlCall::VertexAttribPointer { location: 1, size: 3 }));
    assert!(frame.contains(&GlCall::VertexAttribPointer { location: 2, size: 2 }));
    assert!(frame.contains(&GlCall::UniformMatrix4 {
        location: UniformLoc { program: 3, uniform: Uniform::NormalMatrix },
        matrix: FrameMatrix::Normal,
    }));
    let draws: Vec<&GlCall> = frame
        .iter()
        .filter(|c| matches!(c, GlCall::DrawArrays { .. } | GlCall::DrawElements { .. }))
        .collect();
    assert_eq!(draws, vec![&GlCall::DrawElements { count: 6 }]);
    assert!(frame.contains(&GlCall::BindBuffer { target: BufferTarget::ElementArray, buffer: Some(e) }));
    host.run(frame);
    assert!(host.nothing_bound());
}

#[test]
fn reloading_a_slot_deletes_the_old_buffer() {
    let mut host = MockHost::new();
    let t = linked(&mut host, plain());
    let t = ok(step(&mut host, t.load_vertices(VertexSlot::Position, TRIANGLE.to_vec())));
    let mut t = ok(step(&mut host, t.load_vertices(VertexSlot::Position, vec![0.0; 18])));
    assert_eq!(t.take_calls(), vec![GlCall::DeleteBuffer { buffer: 4 }]);
    assert_eq!(t.vertex_buffer(VertexSlot::Position).as_ref().map(|b| (b.id(), b.element_count())), Some((5, 18)));
}

#[test]
fn release_deletes_every_object_once() {
    let mut host = MockHost::new();
    let mut t = loaded_full(&mut host);
    t.take_calls();
    assert_eq!(
        t.release(),
        vec![
            GlCall::DeleteProgram { program: 3 },
            GlCall::DeleteBuffer { buffer: 4 },
            GlCall::DeleteBuffer { buffer: 5 },
            GlCall::DeleteBuffer { buffer: 6 },
            GlCall::DeleteTexture { texture: 7 },
        ]
    );
}

#[test]
fn viewport_follows_refresh() {
    let mut t: Tetra<f32> = Tetra::new(640, 480, plain());
    assert_eq!(t.take_calls(), vec![GlCall::Viewport { width: 640, height: 480 }]);
    t.refresh_viewport(800, 600);
    assert_eq!(t.viewport_size(), (800, 600));
    assert_eq!(t.take_calls(), vec![GlCall::Viewport { width: 800, height: 600 }]);
}
