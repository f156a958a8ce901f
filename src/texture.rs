use vstd::prelude::*;

use crate::error::{result_view, GlError, GlErrorView, GlObject};
use crate::gl::{
    bindings_after, created, group_bindings, is_created, is_uploaded, unbound, uploaded, Bindings,
    GlCall, Reply, TexParam, TexValue, WebGl,
};

verus! {

/// `n` is a power of two: 1, 2, 4, 8, ...
pub open spec fn is_pow2(n: nat) -> bool
    decreases n,
{
    if n == 0 {
        false
    } else if n == 1 {
        true
    } else {
        n % 2 == 0 && is_pow2(n / 2)
    }
}

/// Whether `value` is an exact power of two (zero is not).
pub fn is_power_of_2(value: u32) -> (r: bool)
    ensures
        r == is_pow2(value as nat),
{
    let mut v: u32 = value;
    while v > 1 && v % 2 == 0
        invariant
            is_pow2(v as nat) == is_pow2(value as nat),
        decreases v,
    {
        v = v / 2;
    }
    v == 1
}

/// Both sides are powers of two.
pub open spec fn mipmappable(width: u32, height: u32) -> bool {
    is_pow2(width as nat) && is_pow2(height as nat)
}

/// How the bound texture is prepared for sampling: mipmaps where both sides
/// are powers of two; else clamp-to-edge wrapping and linear minification,
/// and no mipmaps.
pub open spec fn sampling_calls(width: u32, height: u32) -> Seq<GlCall> {
    if mipmappable(width, height) {
        seq![GlCall::GenerateMipmap]
    } else {
        seq![
            GlCall::TexParameter { param: TexParam::WrapS, value: TexValue::ClampToEdge },
            GlCall::TexParameter { param: TexParam::WrapT, value: TexValue::ClampToEdge },
            GlCall::TexParameter { param: TexParam::MinFilter, value: TexValue::Linear },
        ]
    }
}

/// The calls that create texture object `id`, fill it with the RGBA8
/// `pixels` of a `width` by `height` image, prepare it for sampling and
/// unbind it. The host answers the creation and the upload.
pub open spec fn texture_calls(id: u32, width: u32, height: u32, pixels: Vec<u8>) -> Seq<GlCall> {
    seq![
        GlCall::CreateTexture { texture: id },
        GlCall::BindTexture { texture: Some(id) },
        GlCall::TexImage2d { texture: id, width, height, pixels },
    ] + sampling_calls(width, height) + seq![GlCall::BindTexture { texture: None }]
}

/// Issues the calls that upload an image into texture `id`.
pub fn upload_texture(gl: &mut WebGl, id: u32, width: u32, height: u32, pixels: Vec<u8>)
    ensures
        final(gl).calls@ == old(gl).calls@ + texture_calls(id, width, height, pixels),
        final(gl).next_id == old(gl).next_id,
{
    let ghost p = pixels;
    let mut calls: Vec<GlCall> = Vec::new();
    calls.push(GlCall::CreateTexture { texture: id });
    calls.push(GlCall::BindTexture { texture: Some(id) });
    calls.push(GlCall::TexImage2d { texture: id, width, height, pixels });
    if is_power_of_2(width) && is_power_of_2(height) {
        calls.push(GlCall::GenerateMipmap);
    } else {
        calls.push(GlCall::TexParameter { param: TexParam::WrapS, value: TexValue::ClampToEdge });
        calls.push(GlCall::TexParameter { param: TexParam::WrapT, value: TexValue::ClampToEdge });
        calls.push(GlCall::TexParameter { param: TexParam::MinFilter, value: TexValue::Linear });
    }
    calls.push(GlCall::BindTexture { texture: None });
    assert(calls@ =~= texture_calls(id, width, height, p));
    gl.issue_all(calls);
}

/// A 2D texture object holding an image.
#[derive(Clone, Copy, Debug, PartialEq, Eq, Structural)]
pub struct Texture2D {
    pub id: u32,
    pub width: u32,
    pub height: u32,
}

impl Texture2D {
    /// The texture that the replies to `texture_calls(id, width, height, ..)`
    /// give: there only where the object was created and took the pixels.
    pub fn new(id: u32, width: u32, height: u32, replies: &Vec<Reply>) -> (r: Result<
        Texture2D,
        GlError,
    >)
        ensures
            created(replies@, 0) && uploaded(replies@, 1) ==> r == Ok::<Texture2D, GlError>(
                Texture2D { id, width, height },
            ),
            !(created(replies@, 0) && uploaded(replies@, 1)) ==> result_view(r) == Err::<
                Texture2D,
                GlErrorView,
            >(GlErrorView::ResourceCreation(GlObject::Texture)),
    {
        if is_created(replies, 0) && is_uploaded(replies, 1) {
            Ok(Texture2D { id, width, height })
        } else {
            Err(GlError::ResourceCreation(GlObject::Texture))
        }
    }

    /// Binds this texture as the 2D texture.
    pub fn bind(&self, gl: &mut WebGl)
        ensures
            final(gl).calls@ == old(gl).calls@.push(GlCall::BindTexture { texture: Some(self.id) }),
            final(gl).next_id == old(gl).next_id,
    {
        gl.issue(GlCall::BindTexture { texture: Some(self.id) });
    }

    /// Leaves no 2D texture bound.
    pub fn unbind(&self, gl: &mut WebGl)
        ensures
            final(gl).calls@ == old(gl).calls@.push(GlCall::BindTexture { texture: None }),
            final(gl).next_id == old(gl).next_id,
    {
        gl.issue(GlCall::BindTexture { texture: None });
    }
}

/// Mipmaps are generated exactly for images whose sides are both powers of
/// two; any other image gets clamp-to-edge wrapping on both axes and linear
/// minification instead.
pub proof fn mipmaps_only_for_powers_of_two(id: u32, width: u32, height: u32, pixels: Vec<u8>)
    ensures
        texture_calls(id, width, height, pixels).contains(GlCall::GenerateMipmap) <==> mipmappable(
            width,
            height,
        ),
        !mipmappable(width, height) ==> {
            let c = texture_calls(id, width, height, pixels);
            &&& c.contains(
                GlCall::TexParameter { param: TexParam::WrapS, value: TexValue::ClampToEdge },
            )
            &&& c.contains(
                GlCall::TexParameter { param: TexParam::WrapT, value: TexValue::ClampToEdge },
            )
            &&& c.contains(GlCall::TexParameter { param: TexParam::MinFilter, value: TexValue::Linear })
        },
{
    let c = texture_calls(id, width, height, pixels);
    if mipmappable(width, height) {
        assert(c[3] == GlCall::GenerateMipmap);
    } else {
        assert(c[3] == GlCall::TexParameter { param: TexParam::WrapS, value: TexValue::ClampToEdge });
        assert(c[4] == GlCall::TexParameter { param: TexParam::WrapT, value: TexValue::ClampToEdge });
        assert(c[5] == GlCall::TexParameter { param: TexParam::MinFilter, value: TexValue::Linear });
        assert forall|i: int| 0 <= i < c.len() implies c[i] != GlCall::GenerateMipmap by {
            assert(i < 7);
        }
    }
}

/// A texture upload unbinds what it binds: performed with nothing bound, it
/// leaves nothing bound.
pub proof fn texture_upload_leaves_nothing_bound(id: u32, width: u32, height: u32, pixels: Vec<u8>)
    ensures
        bindings_after(unbound(), texture_calls(id, width, height, pixels)) == unbound(),
{
    broadcast use group_bindings;

    let b = unbound();
    let bound = Bindings { texture: Some(id), ..b };
    let s1 = Seq::<GlCall>::empty().push(GlCall::CreateTexture { texture: id });
    let s2 = s1.push(GlCall::BindTexture { texture: Some(id) });
    let s3 = s2.push(GlCall::TexImage2d { texture: id, width, height, pixels });
    assert(bindings_after(b, s1) == b);
    assert(bindings_after(b, s2) == bound);
    assert(bindings_after(b, s3) == bound);
    let s = if mipmappable(width, height) {
        s3.push(GlCall::GenerateMipmap)
    } else {
        s3.push(
            GlCall::TexParameter { param: TexParam::WrapS, value: TexValue::ClampToEdge },
        ).push(GlCall::TexParameter { param: TexParam::WrapT, value: TexValue::ClampToEdge }).push(
            GlCall::TexParameter { param: TexParam::MinFilter, value: TexValue::Linear },
        )
    };
    assert(bindings_after(b, s) == bound);
    assert(texture_calls(id, width, height, pixels) =~= s.push(GlCall::BindTexture { texture: None }));
}

} // verus!
