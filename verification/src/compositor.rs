//! The one draw of a frame: blend state, uniforms, texture and geometry.
//!
//! The interface paints in premultiplied alpha, so it is blended with source
//! factor one and destination factor one minus source alpha. Depth testing
//! is off and nothing is cleared: the interface lands on top of whatever the
//! frame already holds.

use vstd::prelude::*;
use crate::error::{BridgeError, ResourceError};
use crate::mesh::{FrameMesh, FrameMeshView};
use crate::texture::TextureHandle;

verus! {

/// How the index buffer is read as primitives.
#[derive(Clone, Copy, Debug, PartialEq, Eq, Hash, Structural)]
pub enum Mode {
    Point,
    Line,
    LineStrip,
    /// Every three indices are one triangle.
    Triangle,
    TriangleFan,
    TriangleStrip,
}

/// How a source pixel and a destination pixel are combined.
#[derive(Clone, Copy, Debug, PartialEq, Eq, Hash, Structural)]
pub enum Equation {
    Additive,
    Subtract,
    ReverseSubtract,
    Min,
    Max,
}

/// The weight given to a pixel before it is combined.
#[derive(Clone, Copy, Debug, PartialEq, Eq, Hash, Structural)]
pub enum Factor {
    One,
    Zero,
    SrcColor,
    SrcColorComplement,
    DestColor,
    DestColorComplement,
    SrcAlpha,
    SrcAlphaComplement,
    DstAlpha,
    DstAlphaComplement,
    SrcAlphaSaturate,
}

/// An equation with the factors of its two operands.
#[derive(Clone, Copy, Debug, PartialEq, Eq, Hash, Structural)]
pub struct Blending {
    pub equation: Equation,
    pub src: Factor,
    pub dst: Factor,
}

/// Blending of the colour channels and, where it differs in kind, of the
/// alpha channel.
#[derive(Clone, Copy, Debug, PartialEq, Eq, Hash, Structural)]
pub struct BlendConfig {
    pub color: Blending,
    /// `None` blends alpha as the colour channels are blended.
    pub alpha: Option<Blending>,
}

/// Size of the canvas as the vertex shader needs it to map positions, which
/// are in logical pixels, to clip space.
///
/// The size in logical pixels is `width / pixels_per_point` by
/// `height / pixels_per_point`. It is held as this quotient so that no
/// fraction is lost.
#[derive(Clone, Copy, Debug, PartialEq, Eq, Hash, Structural)]
pub struct ScreenUniforms {
    /// Width of the canvas in physical pixels.
    pub width: u32,
    /// Height of the canvas in physical pixels.
    pub height: u32,
    /// Physical pixels per logical pixel.
    pub pixels_per_point: u16,
}

/// Everything the host needs to submit the frame's draw.
#[derive(Clone, Debug, PartialEq, Eq)]
pub struct DrawCall {
    /// Geometry.
    pub mesh: FrameMesh,
    /// How the indices of `mesh` are read.
    pub mode: Mode,
    /// The texture to bind to the sampler.
    pub texture: TextureHandle,
    /// Value of the screen-size uniform.
    pub screen: ScreenUniforms,
    pub blend: BlendConfig,
    /// Whether fragments are tested against the depth buffer.
    pub depth_test: bool,
    /// Whether the backbuffer is cleared before drawing.
    pub clear_backbuffer: bool,
    /// Whether the framebuffer converts to sRGB on write.
    pub srgb_framebuffer: bool,
}

/// What a [`DrawCall`] holds.
pub struct DrawCallView {
    pub mesh: FrameMeshView,
    pub mode: Mode,
    pub texture: TextureHandle,
    pub screen: ScreenUniforms,
    pub blend: BlendConfig,
    pub depth_test: bool,
    pub clear_backbuffer: bool,
    pub srgb_framebuffer: bool,
}

impl View for DrawCall {
    type V = DrawCallView;

    open spec fn view(&self) -> DrawCallView {
        DrawCallView {
            mesh: self.mesh@,
            mode: self.mode,
            texture: self.texture,
            screen: self.screen,
            blend: self.blend,
            depth_test: self.depth_test,
            clear_backbuffer: self.clear_backbuffer,
            srgb_framebuffer: self.srgb_framebuffer,
        }
    }
}

/// Additive blending with source factor one and destination factor one minus
/// source alpha.
pub open spec fn premultiplied_blending() -> Blending {
    Blending { equation: Equation::Additive, src: Factor::One, dst: Factor::SrcAlphaComplement }
}

/// The blend state of the interface pass: premultiplied-alpha blending for
/// the colour channels and, separately, for alpha.
pub open spec fn spec_blend_policy() -> BlendConfig {
    BlendConfig { color: premultiplied_blending(), alpha: Some(premultiplied_blending()) }
}

/// The draw of `mesh` as a triangle list with `texture` bound on a canvas of
/// size `screen`.
pub open spec fn draw_call_of(
    mesh: FrameMeshView,
    texture: TextureHandle,
    screen: ScreenUniforms,
) -> DrawCallView {
    DrawCallView {
        mesh,
        mode: Mode::Triangle,
        texture,
        screen,
        blend: spec_blend_policy(),
        depth_test: false,
        clear_backbuffer: false,
        srgb_framebuffer: true,
    }
}

/// What [`draw`] returns: the draw call when a texture is bound, else the
/// resource error.
pub open spec fn drawn(
    mesh: FrameMeshView,
    texture: Option<TextureHandle>,
    screen: ScreenUniforms,
) -> Result<DrawCallView, BridgeError> {
    match texture {
        Some(handle) => Ok(draw_call_of(mesh, handle, screen)),
        None => Err(BridgeError::Resource(ResourceError::TextureUnbound)),
    }
}

/// The blend state of the interface pass.
pub fn blend_policy() -> (config: BlendConfig)
    ensures
        config == spec_blend_policy(),
{
    let blending = Blending {
        equation: Equation::Additive,
        src: Factor::One,
        dst: Factor::SrcAlphaComplement,
    };
    BlendConfig { color: blending, alpha: Some(blending) }
}

/// Name of the uniform that receives the canvas size.
pub fn screen_size_uniform() -> (name: &'static str)
    ensures
        name@ == "u_screen_size"@,
{
    "u_screen_size"
}

/// Name of the uniform that receives the texture binding.
pub fn sampler_uniform() -> (name: &'static str)
    ensures
        name@ == "u_sampler"@,
{
    "u_sampler"
}

impl ScreenUniforms {
    /// The uniforms for a canvas of this size in physical pixels, laid out at
    /// this many physical pixels per logical pixel.
    pub fn from_canvas(width: u32, height: u32, pixels_per_point: u16) -> (screen: Self)
        ensures
            screen == (ScreenUniforms { width, height, pixels_per_point }),
    {
        ScreenUniforms { width, height, pixels_per_point }
    }
}

/// Puts the frame's draw together.
///
/// Without a bound texture there is nothing to sample from: the draw is
/// refused and nothing is to be submitted.
pub fn draw(mesh: FrameMesh, texture: Option<TextureHandle>, screen: ScreenUniforms) -> (result:
    Result<DrawCall, BridgeError>)
    ensures
        result is Ok <==> texture is Some,
        result matches Ok(call) ==> drawn(mesh@, texture, screen) == Ok::<DrawCallView, BridgeError>(
            call@,
        ),
        result matches Err(e) ==> drawn(mesh@, texture, screen) == Err::<DrawCallView, BridgeError>(
            e,
        ),
{
    match texture {
        Some(handle) => Ok(
            DrawCall {
                mesh,
                mode: Mode::Triangle,
                texture: handle,
                screen,
                blend: blend_policy(),
                depth_test: false,
                clear_backbuffer: false,
                srgb_framebuffer: true,
            },
        ),
        None => Err(BridgeError::Resource(ResourceError::TextureUnbound)),
    }
}

/// Whatever is drawn is drawn as a triangle list and with the same state:
/// premultiplied-alpha blending, no depth test, no clear.
pub proof fn lemma_draw_state_is_fixed(
    mesh: FrameMeshView,
    texture: TextureHandle,
    screen: ScreenUniforms,
)
    ensures
        draw_call_of(mesh, texture, screen).blend.color == premultiplied_blending(),
        draw_call_of(mesh, texture, screen).blend.color.equation == Equation::Additive,
        draw_call_of(mesh, texture, screen).blend.color.src == Factor::One,
        draw_call_of(mesh, texture, screen).blend.color.dst == Factor::SrcAlphaComplement,
        !draw_call_of(mesh, texture, screen).depth_test,
        !draw_call_of(mesh, texture, screen).clear_backbuffer,
        draw_call_of(mesh, texture, screen).mesh == mesh,
        draw_call_of(mesh, texture, screen).mode == Mode::Triangle,
{
}

} // verus!
