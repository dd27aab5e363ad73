use egui_luminance::bridge::{
    EguiLuminance, FrameStep, GpuCommand, GpuFailure, GpuOutcome, Phase,
};
use egui_luminance::compositor::{blend_policy, Mode, ScreenUniforms};
use egui_luminance::error::{BridgeError, ResourceError};
use egui_luminance::mesh::{FrameMesh, PaintMesh};
use egui_luminance::texture::{TextureAtlas, TextureHandle};
use egui_luminance::vertex::PaintVertex;

/// A host that completes every command and counts what it ran.
#[derive(Default)]
struct CountingHost {
    allocations: usize,
    uploads: usize,
    draws: usize,
    last_upload: Vec<u8>,
}

impl CountingHost {
    fn run(&mut self, command: &GpuCommand) {
        match command {
            GpuCommand::AllocateTexture { .. } => self.allocations += 1,
            GpuCommand::UploadTexels(upload) => {
                self.uploads += 1;
                self.last_upload = upload.texels.clone();
            }
            GpuCommand::Draw(_) => self.draws += 1,
        }
    }

    fn finish(&mut self, bridge: &mut EguiLuminance, first: FrameStep) -> Result<(), BridgeError> {
        let mut step = first;
        loop {
            match step {
                FrameStep::Run(command) => {
                    self.run(&command);
                    step = bridge.advance(GpuOutcome::Completed);
                }
                FrameStep::Done => return Ok(()),
                FrameStep::Failed(e) => return Err(e),
            }
        }
    }
}

fn rejected(failure: GpuFailure, message: &str) -> GpuOutcome {
    GpuOutcome::Rejected { failure, message: message.to_string() }
}

fn drawing_bridge() -> EguiLuminance {
    let mut bridge = EguiLuminance::new();
    bridge.set_texture(atlas(3));
    bridge.render_tessellated(canvas(), &meshes());
    bridge.advance(GpuOutcome::Completed);
    let step = bridge.advance(GpuOutcome::Completed);
    assert!(matches!(step, FrameStep::Run(GpuCommand::Draw(_))));
    bridge
}

fn canvas() -> ScreenUniforms {
    ScreenUniforms::from_canvas(640, 480, 2)
}

fn atlas(version: u64) -> TextureAtlas {
    TextureAtlas {
        width: 2,
        height: 2,
        pixels: vec![[0, 0, 0, 0], [10, 10, 10, 10], [20, 20, 20, 20], [255, 255, 255, 255]],
        version,
    }
}

fn meshes() -> Vec<PaintMesh> {
    let v = PaintVertex { pos: [0, 0], uv: [0, 0], color: [1, 2, 3, 4] };
    vec![PaintMesh { indices: vec![0, 1, 2], vertices: vec![v, v, v] }]
}

fn frame() -> FrameMesh {
    FrameMesh::from_paint(&meshes()[0])
}

#[test]
fn new_bridge_is_idle_and_knows_nothing() {
    let bridge = EguiLuminance::new();
    assert_eq!(bridge.phase(), Phase::Idle);
    assert_eq!(bridge.texture(), None);
    assert_eq!(bridge.texture_version(), None);
    assert_eq!(bridge.atlas_version(), None);
    assert_eq!(bridge.canvas_size(), ScreenUniforms { width: 0, height: 0, pixels_per_point: 1 });
}

#[test]
fn first_frame_allocates_uploads_and_draws() {
    let mut bridge = EguiLuminance::new();
    bridge.set_texture(atlas(0));

    let step = bridge.render_tessellated(canvas(), &meshes());
    assert_eq!(step, FrameStep::Run(GpuCommand::AllocateTexture { width: 2, height: 2 }));
    assert_eq!(bridge.phase(), Phase::Allocating { width: 2, height: 2 });

    let step = bridge.advance(GpuOutcome::Completed);
    match &step {
        FrameStep::Run(GpuCommand::UploadTexels(upload)) => {
            assert_eq!(upload.width, 2);
            assert_eq!(upload.height, 2);
            assert_eq!(upload.version, 0);
            assert_eq!(
                upload.texels,
                vec![0, 0, 0, 0, 10, 10, 10, 10, 20, 20, 20, 20, 255, 255, 255, 255]
            );
        }
        other => panic!("expected an upload, got {:?}", other),
    }
    assert_eq!(bridge.phase(), Phase::Uploading { version: 0 });
    assert_eq!(bridge.texture(), Some(TextureHandle { width: 2, height: 2 }));
    assert_eq!(bridge.texture_version(), None);

    let step = bridge.advance(GpuOutcome::Completed);
    match &step {
        FrameStep::Run(GpuCommand::Draw(call)) => {
            assert_eq!(call.mesh, frame());
            assert_eq!(call.mode, Mode::Triangle);
            assert_eq!(call.texture, TextureHandle { width: 2, height: 2 });
            assert_eq!(call.screen, canvas());
            assert_eq!(call.blend, blend_policy());
            assert!(!call.depth_test);
            assert!(!call.clear_backbuffer);
        }
        other => panic!("expected a draw, got {:?}", other),
    }
    assert_eq!(bridge.phase(), Phase::Drawing);
    assert_eq!(bridge.texture_version(), Some(0));

    assert_eq!(bridge.advance(GpuOutcome::Completed), FrameStep::Done);
    assert_eq!(bridge.phase(), Phase::Idle);
}

#[test]
fn first_sync_of_version_zero_uploads_once() {
    let mut bridge = EguiLuminance::new();
    let mut host = CountingHost::default();
    bridge.set_texture(atlas(0));
    let first = bridge.render_tessellated(canvas(), &meshes());
    assert_eq!(host.finish(&mut bridge, first), Ok(()));
    assert_eq!(host.uploads, 1);
    assert_eq!(host.allocations, 1);
    assert_eq!(host.draws, 1);
}

#[test]
fn two_frames_with_an_unchanged_atlas_upload_once_in_all() {
    let mut bridge = EguiLuminance::new();
    let mut host = CountingHost::default();
    for _ in 0..2 {
        bridge.set_texture(atlas(1));
        let first = bridge.render_tessellated(canvas(), &meshes());
        assert_eq!(host.finish(&mut bridge, first), Ok(()));
    }
    assert_eq!(host.uploads, 1);
    assert_eq!(host.allocations, 1);
    assert_eq!(host.draws, 2);
}

#[test]
fn second_frame_starts_with_its_draw() {
    let mut bridge = EguiLuminance::new();
    let mut host = CountingHost::default();
    bridge.set_texture(atlas(1));
    let first = bridge.render_tessellated(canvas(), &meshes());
    host.finish(&mut bridge, first).unwrap();
    let step = bridge.start_frame(canvas(), frame());
    assert!(matches!(step, FrameStep::Run(GpuCommand::Draw(_))));
}

#[test]
fn new_atlas_version_uploads_once_more_without_allocating() {
    let mut bridge = EguiLuminance::new();
    let mut host = CountingHost::default();
    bridge.set_texture(atlas(1));
    let first = bridge.render_tessellated(canvas(), &meshes());
    host.finish(&mut bridge, first).unwrap();

    bridge.set_texture(atlas(2));
    let first = bridge.render_tessellated(canvas(), &meshes());
    assert!(matches!(first, FrameStep::Run(GpuCommand::UploadTexels(_))));
    host.finish(&mut bridge, first).unwrap();
    assert_eq!(host.uploads, 2);
    assert_eq!(host.allocations, 1);
    assert_eq!(bridge.texture_version(), Some(2));
    assert_eq!(bridge.atlas_version(), Some(2));
}

#[test]
fn atlas_of_another_size_allocates_and_uploads_again() {
    let mut bridge = EguiLuminance::new();
    let mut host = CountingHost::default();
    bridge.set_texture(atlas(1));
    let first = bridge.render_tessellated(canvas(), &meshes());
    host.finish(&mut bridge, first).unwrap();

    let mut wider = atlas(1);
    wider.width = 4;
    wider.height = 1;
    bridge.set_texture(wider);
    let first = bridge.render_tessellated(canvas(), &meshes());
    assert_eq!(first, FrameStep::Run(GpuCommand::AllocateTexture { width: 4, height: 1 }));
    host.finish(&mut bridge, first).unwrap();
    assert_eq!(host.allocations, 2);
    assert_eq!(host.uploads, 2);
    assert_eq!(bridge.texture(), Some(TextureHandle { width: 4, height: 1 }));
}

#[test]
fn frame_without_meshes_is_a_tessellation_error() {
    let mut bridge = EguiLuminance::new();
    bridge.set_texture(atlas(0));
    let step = bridge.render_tessellated(canvas(), &Vec::new());
    assert_eq!(step, FrameStep::Failed(BridgeError::UiTessellation));
    assert_eq!(bridge.phase(), Phase::Idle);
    assert_eq!(bridge.canvas_size(), canvas());
}

#[test]
fn frame_without_an_atlas_is_a_resource_error_and_draws_nothing() {
    let mut bridge = EguiLuminance::new();
    let mut host = CountingHost::default();
    let first = bridge.render_tessellated(canvas(), &meshes());
    assert_eq!(first, FrameStep::Failed(BridgeError::Resource(ResourceError::AtlasMissing)));
    assert_eq!(
        host.finish(&mut bridge, first),
        Err(BridgeError::Resource(ResourceError::AtlasMissing))
    );
    assert_eq!(host.draws, 0);
    assert_eq!(host.uploads, 0);
    assert_eq!(bridge.phase(), Phase::Idle);
}

#[test]
fn missing_mesh_is_reported_before_a_missing_atlas() {
    let mut bridge = EguiLuminance::new();
    let step = bridge.render_tessellated(canvas(), &Vec::new());
    assert_eq!(step, FrameStep::Failed(BridgeError::UiTessellation));
}

#[test]
fn rejected_allocation_is_a_resource_error() {
    let mut bridge = EguiLuminance::new();
    bridge.set_texture(atlas(0));
    bridge.render_tessellated(canvas(), &meshes());
    let step = bridge.advance(rejected(GpuFailure::Texture, "too large"));
    assert_eq!(
        step,
        FrameStep::Failed(BridgeError::Resource(ResourceError::TextureAllocation(
            "too large".to_string()
        )))
    );
    assert_eq!(bridge.phase(), Phase::Idle);
    assert_eq!(bridge.texture(), None);
}

#[test]
fn rejected_upload_is_a_resource_error_and_the_next_frame_uploads_again() {
    let mut bridge = EguiLuminance::new();
    bridge.set_texture(atlas(3));
    bridge.render_tessellated(canvas(), &meshes());
    bridge.advance(GpuOutcome::Completed);
    let step = bridge.advance(rejected(GpuFailure::Texture, "size mismatch"));
    match &step {
        FrameStep::Failed(e) => {
            assert_eq!(
                *e,
                BridgeError::Resource(ResourceError::TextureUpload("size mismatch".to_string()))
            );
            assert_eq!(e.backend_message(), Some(&"size mismatch".to_string()));
            assert!(e.is_resource());
        }
        other => panic!("expected a failure, got {:?}", other),
    }
    assert_eq!(bridge.texture_version(), None);
    assert_eq!(bridge.texture(), Some(TextureHandle { width: 2, height: 2 }));

    let step = bridge.render_tessellated(canvas(), &meshes());
    assert!(matches!(step, FrameStep::Run(GpuCommand::UploadTexels(_))));
}

#[test]
fn rejected_draw_is_a_pipeline_error_and_keeps_the_texture() {
    let mut bridge = EguiLuminance::new();
    bridge.set_texture(atlas(3));
    bridge.render_tessellated(canvas(), &meshes());
    bridge.advance(GpuOutcome::Completed);
    bridge.advance(GpuOutcome::Completed);
    let step = bridge.advance(rejected(GpuFailure::Pipeline, "shader"));
    assert_eq!(step, FrameStep::Failed(BridgeError::Pipeline("shader".to_string())));
    assert_eq!(bridge.phase(), Phase::Idle);
    assert_eq!(bridge.texture_version(), Some(3));
    match step {
        FrameStep::Failed(e) => assert!(!e.is_resource()),
        _ => unreachable!(),
    }
}

#[test]
fn outcome_without_a_frame_is_ignored() {
    let mut bridge = EguiLuminance::new();
    assert_eq!(bridge.advance(GpuOutcome::Completed), FrameStep::Done);
    assert_eq!(bridge.advance(rejected(GpuFailure::Pipeline, "late")), FrameStep::Done);
    assert_eq!(bridge.phase(), Phase::Idle);
    assert_eq!(bridge.texture(), None);
}

#[test]
fn errors_without_a_backend_have_no_message() {
    assert_eq!(BridgeError::UiTessellation.backend_message(), None);
    assert_eq!(BridgeError::Resource(ResourceError::TextureUnbound).backend_message(), None);
    assert_eq!(BridgeError::Resource(ResourceError::AtlasMissing).backend_message(), None);
    assert_eq!(
        BridgeError::Pipeline("bind".to_string()).backend_message(),
        Some(&"bind".to_string())
    );
}

#[test]
fn starting_a_frame_gives_up_the_one_under_way() {
    let mut bridge = EguiLuminance::new();
    bridge.set_texture(atlas(0));
    bridge.render_tessellated(canvas(), &meshes());
    assert_eq!(bridge.phase(), Phase::Allocating { width: 2, height: 2 });
    let step = bridge.render_tessellated(ScreenUniforms::from_canvas(10, 20, 1), &meshes());
    assert_eq!(step, FrameStep::Run(GpuCommand::AllocateTexture { width: 2, height: 2 }));
    assert_eq!(bridge.canvas_size(), ScreenUniforms { width: 10, height: 20, pixels_per_point: 1 });
}

#[test]
fn default_bridge_is_a_new_bridge() {
    let bridge = EguiLuminance::default();
    assert_eq!(bridge.phase(), Phase::Idle);
    assert_eq!(bridge.texture(), None);
    assert_eq!(bridge.texture_version(), None);
    assert_eq!(bridge.atlas_version(), None);
}

#[test]
fn rejected_draw_for_want_of_a_buffer_is_a_resource_error() {
    let mut bridge = drawing_bridge();
    let step = bridge.advance(rejected(GpuFailure::Buffer, "out of memory"));
    assert_eq!(
        step,
        FrameStep::Failed(BridgeError::Resource(ResourceError::BufferAllocation(
            "out of memory".to_string()
        )))
    );
    assert_eq!(bridge.phase(), Phase::Idle);
    assert_eq!(bridge.texture_version(), Some(3));
}

#[test]
fn rejected_draw_for_want_of_a_shader_is_a_resource_error() {
    let mut bridge = drawing_bridge();
    let step = bridge.advance(rejected(GpuFailure::Shader, "syntax error"));
    assert_eq!(
        step,
        FrameStep::Failed(BridgeError::Resource(ResourceError::ShaderBuild(
            "syntax error".to_string()
        )))
    );
}

#[test]
fn rejected_draw_for_want_of_the_texture_is_a_resource_error() {
    let mut bridge = drawing_bridge();
    let step = bridge.advance(rejected(GpuFailure::Texture, "gone"));
    assert_eq!(step, FrameStep::Failed(BridgeError::Resource(ResourceError::TextureUnbound)));
}

#[test]
fn rejected_allocation_is_an_allocation_error_whatever_is_named() {
    for failure in [GpuFailure::Texture, GpuFailure::Buffer, GpuFailure::Shader, GpuFailure::Pipeline] {
        let mut bridge = EguiLuminance::new();
        bridge.set_texture(atlas(0));
        bridge.render_tessellated(canvas(), &meshes());
        let step = bridge.advance(rejected(failure, "no"));
        assert_eq!(
            step,
            FrameStep::Failed(BridgeError::Resource(ResourceError::TextureAllocation(
                "no".to_string()
            )))
        );
    }
}

#[test]
fn frame_with_an_index_beyond_the_vertices_is_a_tessellation_error() {
    let mut bridge = EguiLuminance::new();
    bridge.set_texture(atlas(0));
    let v = PaintVertex { pos: [0, 0], uv: [0, 0], color: [1, 2, 3, 4] };
    let broken = vec![PaintMesh { indices: vec![0, 1, 2], vertices: vec![v, v] }];
    let step = bridge.render_tessellated(canvas(), &broken);
    assert_eq!(step, FrameStep::Failed(BridgeError::UiTessellation));
    assert_eq!(bridge.phase(), Phase::Idle);
}

#[test]
fn bridge_tells_which_atlas_version_it_holds() {
    let mut bridge = EguiLuminance::new();
    assert!(!bridge.holds_atlas_version(0));
    bridge.set_texture(atlas(4));
    assert!(bridge.holds_atlas_version(4));
    assert!(!bridge.holds_atlas_version(5));
    assert!(!bridge.holds_atlas_version(0));
}

#[test]
fn start_extracted_starts_or_abandons() {
    let mut bridge = EguiLuminance::new();
    bridge.set_texture(atlas(0));
    let step = bridge.start_extracted(canvas(), Err(BridgeError::UiTessellation));
    assert_eq!(step, FrameStep::Failed(BridgeError::UiTessellation));
    assert_eq!(bridge.canvas_size(), canvas());
    let step = bridge.start_extracted(canvas(), Ok(frame()));
    assert_eq!(step, FrameStep::Run(GpuCommand::AllocateTexture { width: 2, height: 2 }));
}

#[test]
fn errors_describe_the_kind_the_part_and_the_message() {
    assert_eq!(
        BridgeError::Resource(ResourceError::TextureAllocation("too large".to_string())).describe(),
        "resource error: texture allocation: too large"
    );
    assert_eq!(
        BridgeError::Resource(ResourceError::TextureUpload("size mismatch".to_string())).describe(),
        "resource error: texture upload: size mismatch"
    );
    assert_eq!(
        BridgeError::Resource(ResourceError::BufferAllocation("oom".to_string())).describe(),
        "resource error: buffer allocation: oom"
    );
    assert_eq!(
        BridgeError::Resource(ResourceError::ShaderBuild("line 3".to_string())).describe(),
        "resource error: shader build: line 3"
    );
    assert_eq!(
        BridgeError::Resource(ResourceError::TextureUnbound).describe(),
        "resource error: no texture is bound"
    );
    assert_eq!(
        BridgeError::Resource(ResourceError::AtlasMissing).describe(),
        "resource error: the interface has no atlas yet"
    );
    assert_eq!(
        BridgeError::UiTessellation.describe(),
        "tessellation error: the interface produced no mesh to draw"
    );
    assert_eq!(BridgeError::Pipeline("bind".to_string()).describe(), "pipeline error: bind");
    assert_eq!(BridgeError::Pipeline(String::new()).describe(), "pipeline error: ");
}
