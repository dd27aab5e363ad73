//! The frame, step by step.
//!
//! A frame is a short conversation with the host. The bridge names one GPU
//! command, the host runs it and reports the outcome, and the bridge names
//! the next: allocate the atlas texture if there is none of the right size,
//! upload the atlas if the texture is stale, then draw. A rejected command
//! ends the frame with an error and leaves what is known of the texture as
//! it was.

use vstd::prelude::*;
use crate::compositor::{draw, draw_call_of, DrawCall, DrawCallView, Mode, ScreenUniforms};
use crate::error::{BridgeError, ResourceError};
use crate::mesh::{
    extract, extracted, lemma_adapted_well_formed, FrameMesh, FrameMeshView, PaintMesh,
};
use crate::texture::{
    upload_of, SyncStep, SynchronizerView, TexelUpload, TexelUploadView, TextureAtlas,
    TextureAtlasView, TextureHandle, TextureStep, TextureSynchronizer,
};
use crate::ui::{copy_atlas, texture_version, UiContext};

verus! {

/// Which outcome the bridge is waiting for.
#[derive(Clone, Copy, Debug, PartialEq, Eq, Hash, Structural)]
pub enum Phase {
    /// No frame is under way.
    Idle,
    /// The host was asked to allocate a texture of this size.
    Allocating { width: u32, height: u32 },
    /// The host was asked to upload this version of the atlas.
    Uploading { version: u64 },
    /// The host was asked to draw.
    Drawing,
}

/// One thing for the host to do on the GPU.
#[derive(Clone, Debug, PartialEq, Eq)]
pub enum GpuCommand {
    /// Replace the atlas texture by an empty one of this size.
    AllocateTexture { width: u32, height: u32 },
    /// Replace the contents of the atlas texture.
    UploadTexels(TexelUpload),
    /// Submit the frame's draw.
    Draw(DrawCall),
}

/// What a [`GpuCommand`] holds.
pub enum GpuCommandView {
    AllocateTexture { width: u32, height: u32 },
    UploadTexels(TexelUploadView),
    Draw(DrawCallView),
}

impl View for GpuCommand {
    type V = GpuCommandView;

    open spec fn view(&self) -> GpuCommandView {
        match self {
            GpuCommand::AllocateTexture { width, height } => GpuCommandView::AllocateTexture {
                width: *width,
                height: *height,
            },
            GpuCommand::UploadTexels(upload) => GpuCommandView::UploadTexels(upload@),
            GpuCommand::Draw(call) => GpuCommandView::Draw(call@),
        }
    }
}

/// What it was that the host could not do.
#[derive(Clone, Copy, Debug, PartialEq, Eq, Hash, Structural)]
pub enum GpuFailure {
    /// The atlas texture could not be allocated or filled, or is not there.
    Texture,
    /// The vertex and index buffers of the frame could not be created.
    Buffer,
    /// The shader program could not be built.
    Shader,
    /// Binding the shader or the texture, or submitting the draw, failed.
    Pipeline,
}

/// How the host fared with the command it was given.
#[derive(Clone, Debug, PartialEq, Eq)]
pub enum GpuOutcome {
    /// The command was carried out.
    Completed,
    /// The command was not carried out: what failed, and the backend's
    /// message.
    Rejected { failure: GpuFailure, message: String },
}

/// What an extraction holds: the view of the mesh, or the error as it is.
pub open spec fn extraction_view(extraction: Result<FrameMesh, BridgeError>) -> Result<
    FrameMeshView,
    BridgeError,
> {
    match extraction {
        Ok(mesh) => Ok(mesh@),
        Err(e) => Err(e),
    }
}

/// The error of a rejected draw: a missing texture, a buffer or a shader
/// that could not be had is a resource error, all else a pipeline error.
pub open spec fn draw_rejection(failure: GpuFailure, message: String) -> BridgeError {
    match failure {
        GpuFailure::Texture => BridgeError::Resource(ResourceError::TextureUnbound),
        GpuFailure::Buffer => BridgeError::Resource(ResourceError::BufferAllocation(message)),
        GpuFailure::Shader => BridgeError::Resource(ResourceError::ShaderBuild(message)),
        GpuFailure::Pipeline => BridgeError::Pipeline(message),
    }
}

/// Where the frame stands after a step.
#[derive(Clone, Debug, PartialEq, Eq)]
pub enum FrameStep {
    /// The host must run this command and report its outcome.
    Run(GpuCommand),
    /// The frame is drawn; nothing is left to do.
    Done,
    /// The frame is abandoned; nothing more is to be run for it.
    Failed(BridgeError),
}

/// What a [`FrameStep`] holds.
pub enum FrameStepView {
    Run(GpuCommandView),
    Done,
    Failed(BridgeError),
}

impl View for FrameStep {
    type V = FrameStepView;

    open spec fn view(&self) -> FrameStepView {
        match self {
            FrameStep::Run(command) => FrameStepView::Run(command@),
            FrameStep::Done => FrameStepView::Done,
            FrameStep::Failed(e) => FrameStepView::Failed(*e),
        }
    }
}

impl FrameStepView {
    /// Number of uploads that this step asks of the host.
    pub open spec fn uploads(self) -> nat {
        if self matches FrameStepView::Run(GpuCommandView::UploadTexels(_)) {
            1
        } else {
            0
        }
    }

    /// Number of draws that this step asks of the host.
    pub open spec fn draws(self) -> nat {
        if self matches FrameStepView::Run(GpuCommandView::Draw(_)) {
            1
        } else {
            0
        }
    }
}

/// What the bridge knows between two steps.
pub struct BridgeView {
    /// The atlas last taken from the interface.
    pub atlas: Option<TextureAtlasView>,
    /// What is known of the GPU texture.
    pub textures: SynchronizerView,
    /// Canvas size of the frame under way.
    pub canvas: ScreenUniforms,
    /// Geometry of the frame under way, until it is handed out for drawing.
    pub mesh: Option<FrameMeshView>,
    pub phase: Phase,
}

impl BridgeView {
    /// The same state with `atlas` as the atlas last taken.
    pub open spec fn with_atlas(self, atlas: TextureAtlasView) -> BridgeView {
        BridgeView { atlas: Some(atlas), ..self }
    }

    /// The atlas last taken has this version.
    pub open spec fn holds_atlas_version(self, version: u64) -> bool {
        self.atlas matches Some(atlas) && atlas.version == version
    }

    /// The state once the interface has reported `atlas`: an atlas that is
    /// held with the reported version stays, any other is replaced.
    pub open spec fn refreshed(self, atlas: TextureAtlasView) -> BridgeView {
        if self.holds_atlas_version(atlas.version) {
            self
        } else {
            self.with_atlas(atlas)
        }
    }

    /// The frame is abandoned with `e`: its geometry is dropped and no
    /// outcome is awaited. What is known of the texture stays.
    pub open spec fn aborted(self, e: BridgeError) -> (BridgeView, FrameStepView) {
        (BridgeView { mesh: None, phase: Phase::Idle, ..self }, FrameStepView::Failed(e))
    }

    /// The texture exists with the size of the atlas and shows its version.
    pub open spec fn texture_is_current(self) -> bool {
        self.atlas matches Some(atlas) && self.textures.has_texture(atlas.width, atlas.height)
            && !self.textures.is_stale(atlas.version)
    }

    /// The next command of the frame under way: allocate when no texture of
    /// the atlas's size is at hand, else upload when the texture is stale,
    /// else draw.
    pub open spec fn next_step(self) -> (BridgeView, FrameStepView) {
        match (self.atlas, self.mesh) {
            (None, _) => self.aborted(BridgeError::Resource(ResourceError::AtlasMissing)),
            (Some(_), None) => self.aborted(BridgeError::UiTessellation),
            (Some(atlas), Some(mesh)) => {
                if !self.textures.has_texture(atlas.width, atlas.height) {
                    (
                        BridgeView {
                            phase: Phase::Allocating { width: atlas.width, height: atlas.height },
                            ..self
                        },
                        FrameStepView::Run(
                            GpuCommandView::AllocateTexture {
                                width: atlas.width,
                                height: atlas.height,
                            },
                        ),
                    )
                } else if self.textures.is_stale(atlas.version) {
                    (
                        BridgeView { phase: Phase::Uploading { version: atlas.version }, ..self },
                        FrameStepView::Run(GpuCommandView::UploadTexels(upload_of(atlas))),
                    )
                } else {
                    (
                        BridgeView { mesh: None, phase: Phase::Drawing, ..self },
                        FrameStepView::Run(
                            GpuCommandView::Draw(
                                draw_call_of(
                                    mesh,
                                    TextureHandle { width: atlas.width, height: atlas.height },
                                    self.canvas,
                                ),
                            ),
                        ),
                    )
                }
            },
        }
    }

    /// A frame with geometry `mesh` starts on a canvas of size `canvas`. A
    /// frame that was under way is given up.
    pub open spec fn start_frame(self, canvas: ScreenUniforms, mesh: FrameMeshView) -> (
        BridgeView,
        FrameStepView,
    ) {
        BridgeView { canvas, mesh: Some(mesh), ..self }.next_step()
    }

    /// A frame starts from what was taken out of the tessellator's output:
    /// with the mesh where there is one, else it is abandoned at once.
    pub open spec fn started(
        self,
        canvas: ScreenUniforms,
        extraction: Result<FrameMeshView, BridgeError>,
    ) -> (BridgeView, FrameStepView) {
        match extraction {
            Ok(mesh) => self.start_frame(canvas, mesh),
            Err(e) => BridgeView { canvas, ..self }.aborted(e),
        }
    }

    /// A frame starts from the tessellator's output: with its first mesh
    /// where that can be drawn, else it is abandoned at once.
    pub open spec fn rendered(self, canvas: ScreenUniforms, meshes: Seq<PaintMesh>) -> (
        BridgeView,
        FrameStepView,
    ) {
        self.started(canvas, extracted(meshes))
    }

    /// The host reports the outcome of the command it was given.
    ///
    /// A completed allocation leaves a fresh texture, a completed upload a
    /// current one, and either is followed by the next command. A completed
    /// draw ends the frame. A rejection ends it: with the allocation or the
    /// upload error while the texture was being made or filled, and with the
    /// error of what the host names as failed while drawing. With no frame
    /// under way there is nothing to do.
    pub open spec fn advance(self, outcome: GpuOutcome) -> (BridgeView, FrameStepView) {
        match (self.phase, outcome) {
            (Phase::Idle, _) => (self, FrameStepView::Done),
            (Phase::Allocating { width, height }, GpuOutcome::Completed) => BridgeView {
                textures: self.textures.allocated(width, height),
                ..self
            }.next_step(),
            (Phase::Allocating { .. }, GpuOutcome::Rejected { message, .. }) => self.aborted(
                BridgeError::Resource(ResourceError::TextureAllocation(message)),
            ),
            (Phase::Uploading { version }, GpuOutcome::Completed) => BridgeView {
                textures: self.textures.uploaded(version),
                ..self
            }.next_step(),
            (Phase::Uploading { .. }, GpuOutcome::Rejected { message, .. }) => self.aborted(
                BridgeError::Resource(ResourceError::TextureUpload(message)),
            ),
            (Phase::Drawing, GpuOutcome::Completed) => (
                BridgeView { mesh: None, phase: Phase::Idle, ..self },
                FrameStepView::Done,
            ),
            (Phase::Drawing, GpuOutcome::Rejected { failure, message }) => self.aborted(
                draw_rejection(failure, message),
            ),
        }
    }
}

/// The bridge: the interface context, the atlas last taken from it, what is
/// known of the GPU texture, and the frame under way.
pub struct EguiLuminance {
    ui: UiContext,
    egui_texture: Option<TextureAtlas>,
    textures: TextureSynchronizer,
    canvas_size: ScreenUniforms,
    mesh: Option<FrameMesh>,
    phase: Phase,
}

impl View for EguiLuminance {
    type V = BridgeView;

    closed spec fn view(&self) -> BridgeView {
        BridgeView {
            atlas: match self.egui_texture {
                Some(atlas) => Some(atlas@),
                None => None,
            },
            textures: self.textures@,
            canvas: self.canvas_size,
            mesh: match self.mesh {
                Some(mesh) => Some(mesh@),
                None => None,
            },
            phase: self.phase,
        }
    }
}

impl Default for EguiLuminance {
    fn default() -> (bridge: Self)
        ensures
            bridge@ == EguiLuminance::fresh(),
    {
        Self::new()
    }
}

impl EguiLuminance {
    /// What a new bridge knows: no atlas, no texture, no frame under way.
    pub open spec fn fresh() -> BridgeView {
        BridgeView {
            atlas: None,
            textures: SynchronizerView { texture: None, cached_version: None },
            canvas: ScreenUniforms { width: 0, height: 0, pixels_per_point: 1 },
            mesh: None,
            phase: Phase::Idle,
        }
    }

    /// A bridge that has seen no atlas, knows of no texture and has no frame
    /// under way.
    pub fn new() -> (bridge: Self)
        ensures
            bridge@ == EguiLuminance::fresh(),
    {
        EguiLuminance {
            ui: UiContext::new(),
            egui_texture: None,
            textures: TextureSynchronizer::new(),
            canvas_size: ScreenUniforms { width: 0, height: 0, pixels_per_point: 1 },
            mesh: None,
            phase: Phase::Idle,
        }
    }

    /// Which outcome the bridge is waiting for.
    pub fn phase(&self) -> (phase: Phase)
        ensures
            phase == self@.phase,
    {
        self.phase
    }

    /// Canvas size of the frame last started.
    pub fn canvas_size(&self) -> (canvas: ScreenUniforms)
        ensures
            canvas == self@.canvas,
    {
        self.canvas_size
    }

    /// The GPU texture that the host holds, as far as the bridge knows.
    pub fn texture(&self) -> (texture: Option<TextureHandle>)
        ensures
            texture == self@.textures.texture,
    {
        self.textures.texture()
    }

    /// The atlas version that the GPU texture shows, as far as the bridge
    /// knows.
    pub fn texture_version(&self) -> (version: Option<u64>)
        ensures
            version == self@.textures.cached_version,
    {
        self.textures.cached_version()
    }

    /// Version of the atlas last taken from the interface.
    pub fn atlas_version(&self) -> (version: Option<u64>)
        ensures
            version == (match self@.atlas {
                Some(atlas) => Some(atlas.version),
                None => None,
            }),
    {
        match &self.egui_texture {
            Some(atlas) => Some(atlas.version),
            None => None,
        }
    }

    /// Whether the atlas last taken has this version.
    pub fn holds_atlas_version(&self, version: u64) -> (held: bool)
        ensures
            held == self@.holds_atlas_version(version),
    {
        match &self.egui_texture {
            Some(atlas) => atlas.version == version,
            None => false,
        }
    }

    /// Takes `atlas` as the interface's current atlas.
    pub fn set_texture(&mut self, atlas: TextureAtlas)
        ensures
            final(self)@ == old(self)@.with_atlas(atlas@),
    {
        self.egui_texture = Some(atlas);
    }

    fn abort(&mut self, e: BridgeError) -> (step: FrameStep)
        ensures
            (final(self)@, step@) == old(self)@.aborted(e),
    {
        self.mesh = None;
        self.phase = Phase::Idle;
        FrameStep::Failed(e)
    }

    fn next_step(&mut self) -> (step: FrameStep)
        ensures
            (final(self)@, step@) == old(self)@.next_step(),
    {
        let (step, upload) = match &self.egui_texture {
            None => { return self.abort(BridgeError::Resource(ResourceError::AtlasMissing)); },
            Some(atlas) => {
                let step = self.textures.ensure_texture(atlas.width, atlas.height);
                let upload = match step {
                    TextureStep::Ready(_) => self.textures.sync(atlas),
                    TextureStep::Allocate { .. } => SyncStep::UpToDate,
                };
                (step, upload)
            },
        };
        if self.mesh.is_none() {
            return self.abort(BridgeError::UiTessellation);
        }
        match step {
            TextureStep::Allocate { width, height } => {
                self.phase = Phase::Allocating { width, height };
                FrameStep::Run(GpuCommand::AllocateTexture { width, height })
            },
            TextureStep::Ready(handle) => match upload {
                SyncStep::Upload(upload) => {
                    self.phase = Phase::Uploading { version: upload.version };
                    FrameStep::Run(GpuCommand::UploadTexels(upload))
                },
                SyncStep::UpToDate => {
                    let mesh = self.mesh.take().unwrap();
                    self.phase = Phase::Drawing;
                    match draw(mesh, Some(handle), self.canvas_size) {
                        Ok(call) => FrameStep::Run(GpuCommand::Draw(call)),
                        Err(e) => FrameStep::Failed(e),
                    }
                },
            },
        }
    }

    /// Starts a frame with geometry `mesh` on a canvas of size `canvas_size`
    /// and names its first command.
    pub fn start_frame(&mut self, canvas_size: ScreenUniforms, mesh: FrameMesh) -> (step: FrameStep)
        ensures
            (final(self)@, step@) == old(self)@.start_frame(canvas_size, mesh@),
    {
        self.canvas_size = canvas_size;
        self.mesh = Some(mesh);
        self.next_step()
    }

    /// Starts a frame from the tessellator's output and names its first
    /// command, or abandons it when there is no mesh.
    pub fn render_tessellated(&mut self, canvas_size: ScreenUniforms, meshes: &Vec<PaintMesh>) -> (step:
        FrameStep)
        ensures
            (final(self)@, step@) == old(self)@.rendered(canvas_size, meshes@),
    {
        match extract(meshes) {
            Ok(mesh) => self.start_frame(canvas_size, mesh),
            Err(e) => {
                self.canvas_size = canvas_size;
                self.abort(e)
            },
        }
    }

    /// Takes the outcome of the command last named and names the next.
    pub fn advance(&mut self, outcome: GpuOutcome) -> (step: FrameStep)
        ensures
            (final(self)@, step@) == old(self)@.advance(outcome),
    {
        match self.phase {
            Phase::Idle => FrameStep::Done,
            Phase::Allocating { width, height } => match outcome {
                GpuOutcome::Completed => {
                    self.textures.texture_allocated(width, height);
                    self.next_step()
                },
                GpuOutcome::Rejected { failure: _, message } => self.abort(
                    BridgeError::Resource(ResourceError::TextureAllocation(message)),
                ),
            },
            Phase::Uploading { version } => match outcome {
                GpuOutcome::Completed => {
                    self.textures.upload_succeeded(version);
                    self.next_step()
                },
                GpuOutcome::Rejected { failure: _, message } => self.abort(
                    BridgeError::Resource(ResourceError::TextureUpload(message)),
                ),
            },
            Phase::Drawing => match outcome {
                GpuOutcome::Completed => {
                    self.mesh = None;
                    self.phase = Phase::Idle;
                    FrameStep::Done
                },
                GpuOutcome::Rejected { failure, message } => {
                    let e = match failure {
                        GpuFailure::Texture => BridgeError::Resource(ResourceError::TextureUnbound),
                        GpuFailure::Buffer => BridgeError::Resource(
                            ResourceError::BufferAllocation(message),
                        ),
                        GpuFailure::Shader => BridgeError::Resource(
                            ResourceError::ShaderBuild(message),
                        ),
                        GpuFailure::Pipeline => BridgeError::Pipeline(message),
                    };
                    self.abort(e)
                },
            },
        }
    }

    /// Runs one interface frame at `pixels_per_point` physical pixels per
    /// logical pixel. Returns the version of the atlas that the interface
    /// reports, and the geometry of the frame.
    ///
    /// The atlas is taken as it stands when the frame opens. An atlas that is
    /// held with the reported version stays as it is; any other is replaced
    /// by a copy of the interface's, under the reported version. The
    /// geometry is what [`extract`] makes of the tessellator's output: a
    /// triangle list over its own vertices, or the tessellation error.
    pub fn build_ui<F: Fn(&egui::CtxRef)>(&mut self, pixels_per_point: u16, builder: F) -> (out: (
        u64,
        Result<FrameMesh, BridgeError>,
    ))
        requires
            0 < pixels_per_point < 100,
            forall|ctx: &egui::CtxRef| builder.requires((ctx,)),
        ensures
            final(self)@.holds_atlas_version(out.0),
            final(self)@ == old(self)@.refreshed(final(self)@.atlas->Some_0),
            out.1 matches Ok(frame) ==> frame@.well_formed(),
            out.1 matches Err(e) ==> e == BridgeError::UiTessellation,
    {
        let (shared, meshes) = self.ui.run_frame(pixels_per_point, builder);
        let version = texture_version(&shared);
        if !self.holds_atlas_version(version) {
            self.set_texture(copy_atlas(&shared, version));
        }
        (version, extract(&meshes))
    }

    /// Starts a frame from what [`EguiLuminance::build_ui`] returned as the
    /// geometry and names its first command, or abandons it with the error
    /// that was returned in its place.
    pub fn start_extracted(
        &mut self,
        canvas_size: ScreenUniforms,
        extraction: Result<FrameMesh, BridgeError>,
    ) -> (step: FrameStep)
        ensures
            (final(self)@, step@) == old(self)@.started(canvas_size, extraction_view(extraction)),
    {
        match extraction {
            Ok(mesh) => self.start_frame(canvas_size, mesh),
            Err(e) => {
                self.canvas_size = canvas_size;
                self.abort(e)
            },
        }
    }

    /// Runs one interface frame for a canvas of `width` by `height` physical
    /// pixels at `pixels_per_point` physical pixels per logical pixel, starts
    /// the GPU frame from it and names the first command.
    ///
    /// What the interface returns is not known beforehand. Whatever it is,
    /// an atlas of another version than the one held has taken the place of
    /// the one held, and the frame has started with a mesh that is a triangle
    /// list over its own vertices, or was abandoned for want of one.
    pub fn render<F: Fn(&egui::CtxRef)>(
        &mut self,
        width: u32,
        height: u32,
        pixels_per_point: u16,
        builder: F,
    ) -> (step: FrameStep)
        requires
            0 < pixels_per_point < 100,
            forall|ctx: &egui::CtxRef| builder.requires((ctx,)),
        ensures
            exists|atlas: TextureAtlasView, extraction: Result<FrameMeshView, BridgeError>|
                (final(self)@, step@) == (#[trigger] old(self)@.refreshed(atlas).started(
                    (ScreenUniforms { width, height, pixels_per_point }),
                    extraction,
                )) && (extraction matches Ok(mesh) ==> mesh.well_formed()) && (extraction matches Err(
                    e,
                ) ==> e == BridgeError::UiTessellation),
            step@ != FrameStepView::Failed(BridgeError::Resource(ResourceError::AtlasMissing)),
            final(self)@.canvas == (ScreenUniforms { width, height, pixels_per_point }),
            final(self)@.mesh matches Some(mesh) ==> mesh.well_formed(),
            step@ matches FrameStepView::Run(GpuCommandView::Draw(call)) ==> call.mesh.well_formed(),
    {
        let (_, extraction) = self.build_ui(pixels_per_point, builder);
        let ghost before = self@;
        let ghost taken = extraction_view(extraction);
        let canvas_size = ScreenUniforms { width, height, pixels_per_point };
        let step = self.start_extracted(canvas_size, extraction);
        assert((self@, step@) == old(self)@.refreshed(before.atlas->Some_0).started(
            canvas_size,
            taken,
        ));
        step
    }
}

/// The frame run to its end with a host that completes every command: the
/// state it ends in, and how many uploads and draws the host was asked for.
/// `step` is the step last named and `budget` bounds the commands still run.
pub open spec fn run_frame(s: BridgeView, step: FrameStepView, budget: nat) -> (BridgeView, nat, nat)
    decreases budget,
{
    if budget == 0 || !(step is Run) {
        (s, 0, 0)
    } else {
        let (next, next_step) = s.advance(GpuOutcome::Completed);
        let (last, uploads, draws) = run_frame(next, next_step, (budget - 1) as nat);
        (last, uploads + step.uploads(), draws + step.draws())
    }
}

/// A draw is named only once the texture has the atlas's size and shows the
/// atlas's version, and it binds that texture and draws the frame's mesh.
pub proof fn lemma_draw_follows_sync(s: BridgeView)
    ensures
        s.next_step().1 matches FrameStepView::Run(GpuCommandView::Draw(call)) ==> (
        s.texture_is_current() && s.next_step().0.texture_is_current() && s.textures.texture
            == Some(call.texture) && s.mesh == Some(call.mesh) && call.screen == s.canvas),
        s.next_step().1 matches FrameStepView::Run(GpuCommandView::UploadTexels(upload)) ==> (
        s.atlas is Some && upload == upload_of(s.atlas->Some_0) && s.textures.has_texture(
            upload.width,
            upload.height,
        ) && s.textures.is_stale(upload.version)),
        forall|width: u32, height: u32|
            s.next_step().1 == FrameStepView::Run(
                (GpuCommandView::AllocateTexture { width, height }),
            ) ==> !s.textures.has_texture(width, height),
{
}

/// Whatever the host reports, a step that names a draw leaves the bridge
/// with a current texture.
pub proof fn lemma_draw_is_last(s: BridgeView, outcome: GpuOutcome)
    ensures
        s.advance(outcome).1.draws() == 1 ==> s.advance(outcome).0.texture_is_current()
            && s.advance(outcome).0.phase == Phase::Drawing,
        s.phase == Phase::Drawing ==> s.advance(outcome).1.draws() == 0 && s.advance(
            outcome,
        ).0.phase == Phase::Idle,
{
    if let Phase::Allocating { width, height } = s.phase {
        lemma_draw_follows_sync(BridgeView { textures: s.textures.allocated(width, height), ..s });
    }
    if let Phase::Uploading { version } = s.phase {
        lemma_draw_follows_sync(BridgeView { textures: s.textures.uploaded(version), ..s });
    }
}

/// A rejected command ends the frame with an error and changes nothing of
/// what is known of the atlas and the texture: the next frame tries again.
/// The error is a pipeline error only for a draw of which the host names
/// the pipeline as failed, and a resource error in every other case.
pub proof fn lemma_rejection_keeps_texture(s: BridgeView, failure: GpuFailure, message: String)
    requires
        s.phase != Phase::Idle,
    ensures
        s.advance(GpuOutcome::Rejected { failure, message }).1 is Failed,
        s.advance(GpuOutcome::Rejected { failure, message }).1.uploads() == 0,
        s.advance(GpuOutcome::Rejected { failure, message }).1.draws() == 0,
        s.advance(GpuOutcome::Rejected { failure, message }).0.phase == Phase::Idle,
        s.advance(GpuOutcome::Rejected { failure, message }).0.textures == s.textures,
        s.advance(GpuOutcome::Rejected { failure, message }).0.atlas == s.atlas,
        (s.phase is Drawing && failure is Pipeline) <==> s.advance(
            (GpuOutcome::Rejected { failure, message }),
        ).1 == FrameStepView::Failed(BridgeError::Pipeline(message)),
        !(s.phase is Drawing && failure is Pipeline) ==> s.advance(
            (GpuOutcome::Rejected { failure, message }),
        ).1 matches FrameStepView::Failed(BridgeError::Resource(_)),
{
}

/// The atlas held after the interface has reported one has the reported
/// version, and it is the one held before exactly when that had the
/// reported version already.
pub proof fn lemma_refreshed_holds_reported(s: BridgeView, atlas: TextureAtlasView)
    ensures
        s.refreshed(atlas).holds_atlas_version(atlas.version),
        s.holds_atlas_version(atlas.version) ==> s.refreshed(atlas) == s,
        !s.holds_atlas_version(atlas.version) ==> s.refreshed(atlas).atlas == Some(atlas),
        s.refreshed(atlas).textures == s.textures,
        s.refreshed(atlas).phase == s.phase,
{
}

/// With the texture current, a frame starts with its draw: nothing is
/// allocated and nothing is uploaded.
pub proof fn lemma_current_texture_draws_at_once(
    s: BridgeView,
    canvas: ScreenUniforms,
    mesh: FrameMeshView,
)
    requires
        s.texture_is_current(),
    ensures
        s.start_frame(canvas, mesh).1 == FrameStepView::Run(
            GpuCommandView::Draw(draw_call_of(mesh, s.textures.texture->Some_0, canvas)),
        ),
        s.start_frame(canvas, mesh).1.uploads() == 0,
{
}

/// A frame whose commands all complete draws exactly once, uploads exactly
/// once when the texture was missing, of another size or stale and not at
/// all otherwise, takes at most three commands, and leaves the texture
/// current for the version of the atlas.
pub proof fn lemma_frame_runs_to_draw(
    s: BridgeView,
    atlas: TextureAtlasView,
    canvas: ScreenUniforms,
    mesh: FrameMeshView,
)
    requires
        s.atlas == Some(atlas),
    ensures
        ({
            let (first, step) = s.start_frame(canvas, mesh);
            let (last, uploads, draws) = run_frame(first, step, 3);
            &&& draws == 1
            &&& uploads == (if s.texture_is_current() {
                0nat
            } else {
                1nat
            })
            &&& last.phase == Phase::Idle
            &&& last.atlas == Some(atlas)
            &&& last.texture_is_current()
            &&& last.textures.cached_version == Some(atlas.version)
            &&& last.advance(GpuOutcome::Completed) == (last, FrameStepView::Done)
        }),
{
    reveal_with_fuel(run_frame, 4);
}

/// Two frames in a row over the same atlas, with every command completed,
/// upload once in all when the texture was not current at the start, and
/// never in the second frame.
pub proof fn lemma_second_frame_uploads_nothing(
    s: BridgeView,
    atlas: TextureAtlasView,
    canvas: ScreenUniforms,
    first_mesh: FrameMeshView,
    second_mesh: FrameMeshView,
)
    requires
        s.atlas == Some(atlas),
    ensures
        ({
            let (a, a_step) = s.start_frame(canvas, first_mesh);
            let (between, first_uploads, _) = run_frame(a, a_step, 3);
            let (b, b_step) = between.start_frame(canvas, second_mesh);
            let (_, second_uploads, second_draws) = run_frame(b, b_step, 3);
            &&& second_uploads == 0
            &&& second_draws == 1
            &&& first_uploads + second_uploads == (if s.texture_is_current() {
                0nat
            } else {
                1nat
            })
        }),
{
    lemma_frame_runs_to_draw(s, atlas, canvas, first_mesh);
    let (a, a_step) = s.start_frame(canvas, first_mesh);
    let (between, _, _) = run_frame(a, a_step, 3);
    lemma_frame_runs_to_draw(between, atlas, canvas, second_mesh);
}

/// When the atlas moves on to another version between two frames, the next
/// frame uploads exactly once and the texture then shows the new version.
pub proof fn lemma_new_version_uploads_once(
    s: BridgeView,
    atlas: TextureAtlasView,
    canvas: ScreenUniforms,
    mesh: FrameMeshView,
)
    requires
        s.textures.cached_version is Some,
        s.textures.cached_version != Some(atlas.version),
    ensures
        ({
            let (first, step) = s.with_atlas(atlas).start_frame(canvas, mesh);
            let (last, uploads, draws) = run_frame(first, step, 3);
            &&& uploads == 1
            &&& draws == 1
            &&& last.textures.cached_version == Some(atlas.version)
        }),
{
    lemma_frame_runs_to_draw(s.with_atlas(atlas), atlas, canvas, mesh);
}

/// Without an atlas, or without a first mesh that can be drawn, a frame asks
/// nothing of the host: no upload and no draw. The missing mesh is reported
/// before the missing atlas.
pub proof fn lemma_failed_start_runs_nothing(
    s: BridgeView,
    canvas: ScreenUniforms,
    meshes: Seq<PaintMesh>,
)
    requires
        s.atlas is None || extracted(meshes) is Err,
    ensures
        s.rendered(canvas, meshes).1 is Failed,
        s.rendered(canvas, meshes).1.uploads() == 0,
        s.rendered(canvas, meshes).1.draws() == 0,
        s.rendered(canvas, meshes).0.phase == Phase::Idle,
        extracted(meshes) is Err ==> s.rendered(canvas, meshes).1 == FrameStepView::Failed(
            BridgeError::UiTessellation,
        ),
        extracted(meshes) is Ok ==> s.rendered(canvas, meshes).1 == FrameStepView::Failed(
            BridgeError::Resource(ResourceError::AtlasMissing),
        ),
{
}

/// A frame that holds a triangle list over its own vertices keeps holding
/// one until it draws it: whatever the host reports, the mesh that is held
/// or drawn afterwards is that same mesh.
pub proof fn lemma_advance_keeps_mesh(s: BridgeView, outcome: GpuOutcome)
    requires
        s.mesh matches Some(mesh) ==> mesh.well_formed(),
    ensures
        s.advance(outcome).0.mesh matches Some(mesh) ==> s.mesh == Some(mesh)
            && mesh.well_formed(),
        s.advance(outcome).1 matches FrameStepView::Run(GpuCommandView::Draw(call)) ==> s.mesh
            == Some(call.mesh) && call.mesh.well_formed(),
{
}

/// Whatever is drawn in a frame that starts from the tessellator's output is
/// a triangle list over its own vertices: every index is below the vertex
/// count and the indices come in threes.
pub proof fn lemma_rendered_mesh_is_well_formed(
    s: BridgeView,
    canvas: ScreenUniforms,
    meshes: Seq<PaintMesh>,
)
    ensures
        s.rendered(canvas, meshes).0.mesh matches Some(mesh) ==> mesh.well_formed(),
        s.rendered(canvas, meshes).1 matches FrameStepView::Run(GpuCommandView::Draw(call))
            ==> call.mesh.well_formed() && call.mode == Mode::Triangle,
{
    if meshes.len() > 0 {
        lemma_adapted_well_formed(meshes[0]@);
    }
}

} // verus!
