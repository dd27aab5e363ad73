//! The interface library, as far as the bridge drives it.
//!
//! A frame is opened, the caller's builder describes the widgets, the frame
//! is closed and its shapes are tessellated. The interface library does all
//! of that; what comes back is copied into plain values. Pointer and
//! keyboard input are not handed on: a frame gets the default input and the
//! pixel density.

use std::sync::Arc;
use vstd::prelude::*;
use crate::mesh::PaintMesh;
use crate::texture::TextureAtlas;
use crate::vertex::PaintVertex;

verus! {

/// `egui::CtxRef`: the interface context, carried as it is.
#[verifier::external_type_specification]
#[verifier::external_body]
pub struct ExCtxRef(egui::CtxRef);

/// `egui::epaint::ClippedShape`: a shape of a closed frame before it is
/// tessellated, carried as it is.
#[verifier::external_type_specification]
#[verifier::external_body]
pub struct ExClippedShape(egui::epaint::ClippedShape);

/// `egui::epaint::Texture`: the interface's own atlas, carried as it is
/// until it is copied out.
#[verifier::external_type_specification]
#[verifier::external_body]
pub struct ExTexture(egui::epaint::Texture);

/// An interface context together with the knowledge of whether a frame has
/// ever been opened on it. Fonts, and with them the atlas, exist only from
/// the first frame on.
pub struct UiContext {
    ctx: egui::CtxRef,
    begun: bool,
}

/// `egui::CtxRef::default`: a context on which no frame has been opened.
#[verifier::external_body]
fn default_context() -> egui::CtxRef {
    egui::CtxRef::default()
}

/// `egui::CtxRef::begin_frame`: opens a frame whose input is the default one
/// but for the pixel density. The interface loads its fonts here and refuses
/// a density that is not above 0 and below 100, so those are left out. From
/// then on the context has fonts, which is what `has_begun` records.
#[verifier::external_body]
fn begin_frame(ui: &mut UiContext, pixels_per_point: u16)
    requires
        0 < pixels_per_point < 100,
    ensures
        final(ui).has_begun(),
{
    let pixels_per_point = Some(pixels_per_point.into());
    ui.ctx.begin_frame(egui::RawInput { pixels_per_point, ..Default::default() });
    ui.begun = true;
}

/// `egui::Context::end_frame`: closes the frame and hands out its shapes; the
/// platform output is dropped. It needs fonts, so a frame must have been
/// opened before. Nothing is claimed of the shapes.
#[verifier::external_body]
fn end_frame(ui: &UiContext) -> (shapes: Vec<egui::epaint::ClippedShape>)
    requires
        ui.has_begun(),
{
    ui.ctx.end_frame().1
}

/// `egui::Context::tessellate`: turns shapes into meshes, each copied out
/// field by field with floats as their bit patterns and without its clip
/// rectangle. It needs fonts, so a frame must have been opened before.
/// Nothing is claimed of the meshes.
#[verifier::external_body]
fn tessellate(ui: &UiContext, shapes: Vec<egui::epaint::ClippedShape>) -> (meshes: Vec<PaintMesh>)
    requires
        ui.has_begun(),
{
    let vertex = |v: &egui::epaint::Vertex| PaintVertex {
        pos: [v.pos.x.to_bits(), v.pos.y.to_bits()],
        uv: [v.uv.x.to_bits(), v.uv.y.to_bits()],
        color: v.color.to_array(),
    };
    let mesh = |m: egui::ClippedMesh| PaintMesh {
        vertices: m.1.vertices.iter().map(vertex).collect(),
        indices: m.1.indices,
    };
    ui.ctx.tessellate(shapes).into_iter().map(mesh).collect()
}

/// `egui::Context::texture`: the current atlas, shared. It needs fonts, so a
/// frame must have been opened before. Nothing is claimed of the atlas.
#[verifier::external_body]
fn texture(ui: &UiContext) -> (atlas: Arc<egui::epaint::Texture>)
    requires
        ui.has_begun(),
{
    ui.ctx.texture()
}

/// The field `version` of `egui::epaint::Texture`: the stamp that the
/// interface changes whenever the atlas changes. Nothing is claimed of it.
#[verifier::external_body]
pub(crate) fn texture_version(atlas: &Arc<egui::epaint::Texture>) -> (version: u64) {
    atlas.version
}

/// The fields `width` and `height` of `egui::epaint::Texture`, each cut to
/// 32 bits. Nothing is claimed of them.
#[verifier::external_body]
pub(crate) fn texture_size(atlas: &Arc<egui::epaint::Texture>) -> (size: (u32, u32)) {
    (atlas.width as u32, atlas.height as u32)
}

/// `egui::epaint::Texture::srgba_pixels`: the atlas as premultiplied sRGBA
/// pixels, row by row, each copied out as its four channels. Nothing is
/// claimed of the colours.
#[verifier::external_body]
pub(crate) fn srgba_pixels(atlas: &Arc<egui::epaint::Texture>) -> (pixels: Vec<[u8; 4]>) {
    atlas.srgba_pixels().map(|c| c.to_array()).collect()
}

/// Copies an atlas out of the interface under the version `version`.
pub(crate) fn copy_atlas(atlas: &Arc<egui::epaint::Texture>, version: u64) -> (copy: TextureAtlas)
    ensures
        copy@.version == version,
{
    let (width, height) = texture_size(atlas);
    TextureAtlas { width, height, pixels: srgba_pixels(atlas), version }
}

impl UiContext {
    /// Whether a frame has ever been opened on this context.
    pub closed spec fn has_begun(&self) -> bool {
        self.begun
    }

    /// A context on which no frame has been opened yet.
    pub fn new() -> (ui: Self)
        ensures
            !ui.has_begun(),
    {
        UiContext { ctx: default_context(), begun: false }
    }

    /// Whether a frame has ever been opened on this context.
    pub fn begun(&self) -> (b: bool)
        ensures
            b == self.has_begun(),
    {
        self.begun
    }

    /// Runs one frame at `pixels_per_point` physical pixels per logical
    /// pixel: opens it, lets `builder` describe the widgets, closes it and
    /// tessellates what was described. Returns the atlas as it stood when
    /// the frame was opened, and the meshes.
    ///
    /// The interface rasterizes its glyphs at the density when the first
    /// frame opens, so the atlas and the time that this takes grow with the
    /// square of the density. The density is handed to the interface with
    /// every frame, so a density that the builder sets on the context has no
    /// effect. Fonts that the
    /// builder sets on the context are loaded when the next frame opens, and
    /// the interface panics on font data that it cannot read: a builder that
    /// sets fonts answers for them.
    pub fn run_frame<F: Fn(&egui::CtxRef)>(&mut self, pixels_per_point: u16, builder: F) -> (out: (
        Arc<egui::epaint::Texture>,
        Vec<PaintMesh>,
    ))
        requires
            0 < pixels_per_point < 100,
            forall|ctx: &egui::CtxRef| builder.requires((ctx,)),
        ensures
            final(self).has_begun(),
    {
        begin_frame(self, pixels_per_point);
        let atlas = texture(self);
        builder(&self.ctx);
        let shapes = end_frame(self);
        let meshes = tessellate(self, shapes);
        (atlas, meshes)
    }

    /// The current atlas, once a frame has been opened.
    pub fn atlas(&self) -> (atlas: Option<TextureAtlas>)
        ensures
            atlas is Some <==> self.has_begun(),
    {
        if self.begun {
            let shared = texture(self);
            let version = texture_version(&shared);
            Some(copy_atlas(&shared, version))
        } else {
            None
        }
    }
}

} // verus!
