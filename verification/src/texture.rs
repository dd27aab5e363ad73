//! Keeping one GPU texture in step with the interface's atlas.
//!
//! The atlas carries a version stamp. The texture is stale whenever the
//! version last uploaded differs from it, and a stale texture is replaced
//! whole, never in part. The synchronizer only decides: the host allocates
//! and uploads, and tells the synchronizer once it has.

use vstd::prelude::*;

verus! {

/// The interface's glyph and icon atlas at one moment.
#[derive(Clone, Debug, PartialEq, Eq)]
pub struct TextureAtlas {
    pub width: u32,
    pub height: u32,
    /// Premultiplied sRGBA pixels, row by row from the top.
    pub pixels: Vec<[u8; 4]>,
    /// Changes whenever the pixels do.
    pub version: u64,
}

/// What a [`TextureAtlas`] holds.
pub struct TextureAtlasView {
    pub width: u32,
    pub height: u32,
    pub pixels: Seq<[u8; 4]>,
    pub version: u64,
}

impl View for TextureAtlas {
    type V = TextureAtlasView;

    open spec fn view(&self) -> TextureAtlasView {
        TextureAtlasView {
            width: self.width,
            height: self.height,
            pixels: self.pixels@,
            version: self.version,
        }
    }
}

impl TextureAtlasView {
    /// There is one pixel for every texel of a `width` by `height` texture.
    pub open spec fn is_complete(self) -> bool {
        self.pixels.len() == self.width * self.height
    }
}

/// The bytes that the GPU reads for `pixels`: four per pixel, in the order
/// red, green, blue, alpha, pixel after pixel.
pub open spec fn texels_of(pixels: Seq<[u8; 4]>) -> Seq<u8> {
    Seq::new(4 * pixels.len(), |i: int| pixels[i / 4][i % 4])
}

/// Lays pixels out as the bytes of an 8-bit sRGBA texture.
pub fn flatten_texels(pixels: &Vec<[u8; 4]>) -> (texels: Vec<u8>)
    ensures
        texels@ == texels_of(pixels@),
{
    let n: usize = pixels.len();
    let mut texels: Vec<u8> = Vec::new();
    let mut i: usize = 0;
    while i < n
        invariant
            n == pixels@.len(),
            i <= n,
            texels@.len() == 4 * i,
            forall|k: int| 0 <= k < 4 * i ==> texels@[k] == pixels@[k / 4][k % 4],
        decreases n - i,
    {
        let pixel: [u8; 4] = pixels[i];
        texels.push(pixel[0]);
        texels.push(pixel[1]);
        texels.push(pixel[2]);
        texels.push(pixel[3]);
        i = i + 1;
    }
    assert(texels@ =~= texels_of(pixels@));
    texels
}

/// The GPU texture that the host holds for the atlas, known by its size.
#[derive(Clone, Copy, Debug, PartialEq, Eq, Hash, Structural)]
pub struct TextureHandle {
    pub width: u32,
    pub height: u32,
}

/// What has to happen before a texture of the wanted size is at hand.
#[derive(Clone, Copy, Debug, PartialEq, Eq, Hash, Structural)]
pub enum TextureStep {
    /// The texture exists with the wanted size.
    Ready(TextureHandle),
    /// The host must allocate a texture of this size.
    Allocate { width: u32, height: u32 },
}

/// One full replacement of the texture's contents.
#[derive(Clone, Debug, PartialEq, Eq)]
pub struct TexelUpload {
    pub width: u32,
    pub height: u32,
    /// The atlas version that these texels were made from.
    pub version: u64,
    /// Four bytes per pixel, row by row.
    pub texels: Vec<u8>,
}

/// What a [`TexelUpload`] holds.
pub struct TexelUploadView {
    pub width: u32,
    pub height: u32,
    pub version: u64,
    pub texels: Seq<u8>,
}

impl View for TexelUpload {
    type V = TexelUploadView;

    open spec fn view(&self) -> TexelUploadView {
        TexelUploadView {
            width: self.width,
            height: self.height,
            version: self.version,
            texels: self.texels@,
        }
    }
}

/// What has to happen before the texture shows the atlas.
#[derive(Clone, Debug, PartialEq, Eq)]
pub enum SyncStep {
    /// The texture already shows this version of the atlas.
    UpToDate,
    /// The host must upload these texels.
    Upload(TexelUpload),
}

impl SyncStep {
    /// Number of uploads that this step asks of the host.
    pub open spec fn uploads(&self) -> nat {
        if self is Upload {
            1
        } else {
            0
        }
    }
}

/// The upload that brings a texture up to `atlas`.
pub open spec fn upload_of(atlas: TextureAtlasView) -> TexelUploadView {
    TexelUploadView {
        width: atlas.width,
        height: atlas.height,
        version: atlas.version,
        texels: texels_of(atlas.pixels),
    }
}

/// What the synchronizer remembers between frames.
pub struct SynchronizerView {
    /// The texture that the host holds, if it holds one.
    pub texture: Option<TextureHandle>,
    /// The atlas version last uploaded into that texture.
    pub cached_version: Option<u64>,
}

impl SynchronizerView {
    /// A texture of this size is at hand.
    pub open spec fn has_texture(self, width: u32, height: u32) -> bool {
        self.texture == Some(TextureHandle { width, height })
    }

    /// The texture does not show `version` of the atlas.
    pub open spec fn is_stale(self, version: u64) -> bool {
        self.cached_version != Some(version)
    }

    /// The step towards a texture of the wanted size.
    pub open spec fn texture_step(self, width: u32, height: u32) -> TextureStep {
        if self.has_texture(width, height) {
            TextureStep::Ready(TextureHandle { width, height })
        } else {
            TextureStep::Allocate { width, height }
        }
    }

    /// The state once the host has allocated a texture of this size: the new
    /// texture is empty, so no version is cached.
    pub open spec fn allocated(self, width: u32, height: u32) -> SynchronizerView {
        SynchronizerView { texture: Some(TextureHandle { width, height }), cached_version: None }
    }

    /// The state once the host has uploaded `version`.
    pub open spec fn uploaded(self, version: u64) -> SynchronizerView {
        SynchronizerView { texture: self.texture, cached_version: Some(version) }
    }

    /// Number of uploads that one synchronization with `version` asks for.
    pub open spec fn uploads_for(self, version: u64) -> nat {
        if self.is_stale(version) {
            1
        } else {
            0
        }
    }

    /// The state after one synchronization with `version` whose upload, if
    /// one was asked for, succeeded.
    pub open spec fn synced(self, version: u64) -> SynchronizerView {
        if self.is_stale(version) {
            self.uploaded(version)
        } else {
            self
        }
    }
}

/// Decides when the atlas texture is allocated and when it is uploaded.
#[derive(Clone, Copy, Debug, PartialEq, Eq)]
pub struct TextureSynchronizer {
    texture: Option<TextureHandle>,
    cached_version: Option<u64>,
}

impl View for TextureSynchronizer {
    type V = SynchronizerView;

    closed spec fn view(&self) -> SynchronizerView {
        SynchronizerView { texture: self.texture, cached_version: self.cached_version }
    }
}

impl TextureSynchronizer {
    /// A synchronizer that knows of no texture and of no upload.
    pub fn new() -> (s: Self)
        ensures
            s@ == (SynchronizerView { texture: None, cached_version: None }),
    {
        TextureSynchronizer { texture: None, cached_version: None }
    }

    /// The texture that the host holds, if it holds one.
    pub fn texture(&self) -> (t: Option<TextureHandle>)
        ensures
            t == self@.texture,
    {
        self.texture
    }

    /// The atlas version last uploaded.
    pub fn cached_version(&self) -> (v: Option<u64>)
        ensures
            v == self@.cached_version,
    {
        self.cached_version
    }

    /// Says whether a texture of the wanted size is at hand, or has to be
    /// allocated first. The texture at hand is kept as long as the size asked
    /// for is its own.
    pub fn ensure_texture(&self, width: u32, height: u32) -> (step: TextureStep)
        ensures
            step == self@.texture_step(width, height),
    {
        match self.texture {
            Some(handle) => {
                if handle.width == width && handle.height == height {
                    TextureStep::Ready(handle)
                } else {
                    TextureStep::Allocate { width, height }
                }
            },
            None => TextureStep::Allocate { width, height },
        }
    }

    /// Records that the host has allocated a texture of this size. The cached
    /// version is forgotten, so the next synchronization uploads.
    pub fn texture_allocated(&mut self, width: u32, height: u32) -> (handle: TextureHandle)
        ensures
            handle == (TextureHandle { width, height }),
            final(self)@ == old(self)@.allocated(width, height),
    {
        let handle = TextureHandle { width, height };
        self.texture = Some(handle);
        self.cached_version = None;
        handle
    }

    /// Whether the texture fails to show `version` of the atlas.
    pub fn needs_upload(&self, version: u64) -> (stale: bool)
        ensures
            stale == self@.is_stale(version),
    {
        match self.cached_version {
            Some(cached) => cached != version,
            None => true,
        }
    }

    /// Says what has to happen for the texture to show `atlas`: nothing when
    /// its version is the cached one, else one upload of the whole atlas.
    pub fn sync(&self, atlas: &TextureAtlas) -> (step: SyncStep)
        ensures
            step is UpToDate <==> !self@.is_stale(atlas@.version),
            step matches SyncStep::Upload(upload) ==> upload@ == upload_of(atlas@),
            step.uploads() == self@.uploads_for(atlas@.version),
    {
        if self.needs_upload(atlas.version) {
            SyncStep::Upload(
                TexelUpload {
                    width: atlas.width,
                    height: atlas.height,
                    version: atlas.version,
                    texels: flatten_texels(&atlas.pixels),
                },
            )
        } else {
            SyncStep::UpToDate
        }
    }

    /// Records that the host has uploaded `version` of the atlas.
    pub fn upload_succeeded(&mut self, version: u64)
        ensures
            final(self)@ == old(self)@.uploaded(version),
    {
        self.cached_version = Some(version);
    }
}

/// An upload holds four bytes for each pixel, so for a complete atlas it
/// holds exactly the bytes of a `width` by `height` texture, and byte `c` of
/// pixel `p` is channel `c` of that pixel.
pub proof fn lemma_upload_layout(atlas: TextureAtlasView)
    ensures
        upload_of(atlas).texels.len() == 4 * atlas.pixels.len(),
        atlas.is_complete() ==> upload_of(atlas).texels.len() == 4 * (atlas.width * atlas.height),
        forall|p: int, c: int|
            0 <= p < atlas.pixels.len() && 0 <= c < 4 ==> upload_of(atlas).texels[4 * p + c]
                == (#[trigger] atlas.pixels[p][c]),
{
    assert forall|p: int, c: int| 0 <= p < atlas.pixels.len() && 0 <= c < 4 implies upload_of(
        atlas,
    ).texels[4 * p + c] == (#[trigger] atlas.pixels[p][c]) by {
        assert((4 * p + c) / 4 == p);
        assert((4 * p + c) % 4 == c);
    }
}

/// Synchronizing twice with the same version uploads at most once, and never
/// the second time.
pub proof fn lemma_sync_idempotent(s: SynchronizerView, version: u64)
    ensures
        !s.synced(version).is_stale(version),
        s.synced(version).uploads_for(version) == 0,
        s.synced(version).synced(version) == s.synced(version),
        s.uploads_for(version) + s.synced(version).uploads_for(version) == (if s.is_stale(
            version,
        ) {
            1nat
        } else {
            0nat
        }),
{
}

/// When the atlas version differs from the one cached, synchronizing uploads
/// exactly once and caches the new version.
pub proof fn lemma_sync_complete(s: SynchronizerView, cached: u64, version: u64)
    requires
        s.cached_version == Some(cached),
        version != cached,
    ensures
        s.uploads_for(version) == 1,
        s.synced(version).cached_version == Some(version),
        s.synced(version).texture == s.texture,
{
}

/// A fresh texture is always stale: after an allocation every version has to
/// be uploaded.
pub proof fn lemma_allocation_invalidates(s: SynchronizerView, width: u32, height: u32, version: u64)
    ensures
        s.allocated(width, height).is_stale(version),
        s.allocated(width, height).has_texture(width, height),
        s.has_texture(width, height) ==> s.texture_step(width, height) == TextureStep::Ready(
            s.texture->Some_0,
        ),
{
}

} // verus!
