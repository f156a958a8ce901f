use vstd::prelude::*;

use crate::gl::{Attribute, Uniform};

verus! {

/// A kind of native object on the graphics context.
#[derive(Clone, Copy, Debug, PartialEq, Eq, Structural)]
pub enum GlObject {
    Shader,
    Program,
    Buffer,
    Texture,
}

/// What a frame needs and may lack.
#[derive(Clone, Copy, Debug, PartialEq, Eq, Structural)]
pub enum Resource {
    Program,
    PositionBuffer,
    NormalBuffer,
    TexCoordBuffer,
    Texture,
}

/// Why a step of building or drawing failed.
#[derive(Clone, Debug, PartialEq, Eq)]
pub enum GlError {
    /// The context gave no object of this kind, or, for a texture, refused
    /// its pixels.
    ResourceCreation(GlObject),
    /// The shader compiler failed; its log, or a fixed text where it gave none.
    Compile(String),
    /// The program failed to link; its log, or a fixed text where it gave none.
    Link(String),
    /// The linked program has no such attribute.
    MissingAttribute(Attribute),
    /// The linked program has no such uniform.
    MissingUniform(Uniform),
    /// A frame was asked for while this resource was absent.
    NotReady(Resource),
}

/// A `GlError` with its texts as character sequences.
pub enum GlErrorView {
    ResourceCreation(GlObject),
    Compile(Seq<char>),
    Link(Seq<char>),
    MissingAttribute(Attribute),
    MissingUniform(Uniform),
    NotReady(Resource),
}

impl View for GlError {
    type V = GlErrorView;

    open spec fn view(&self) -> GlErrorView {
        match self {
            GlError::ResourceCreation(o) => GlErrorView::ResourceCreation(*o),
            GlError::Compile(s) => GlErrorView::Compile(s@),
            GlError::Link(s) => GlErrorView::Link(s@),
            GlError::MissingAttribute(a) => GlErrorView::MissingAttribute(*a),
            GlError::MissingUniform(u) => GlErrorView::MissingUniform(*u),
            GlError::NotReady(r) => GlErrorView::NotReady(*r),
        }
    }
}

/// A result with its error seen through `GlError`'s view.
pub open spec fn result_view<T>(r: Result<T, GlError>) -> Result<T, GlErrorView> {
    match r {
        Ok(v) => Ok(v),
        Err(e) => Err(e@),
    }
}

} // verus!
