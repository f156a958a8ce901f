//! A renderer for one textured, lit mesh that never talks to the graphics
//! context itself: every step appends the context calls it needs to a log,
//! and the host that owns the context performs them and hands back what the
//! queries among them answered.

pub mod error;
pub mod gl;
pub mod texture;
pub mod shader;
pub mod program;
pub mod program_info;
pub mod gl_buffer;
pub mod tetra;

pub use error::{GlError, GlObject, Resource};
pub use gl::{Attribute, BufferTarget, GlCall, Reply, Stage, Uniform, WebGl};
pub use gl_buffer::GlBuffer;
pub use program::Program;
pub use program_info::{AttribLocs, Features, ProgramInfo, UniformLocs};
pub use shader::Shader;
pub use tetra::{Awaited, Awaiting, Failure, Tetra, VertexSlot};
pub use texture::{is_power_of_2, Texture2D};
