use egui_luminance::error::BridgeError;
use egui_luminance::mesh::{extract, FrameMesh, PaintMesh};
use egui_luminance::vertex::{EguiVertex, PaintVertex};

fn vertex(tag: u8) -> PaintVertex {
    PaintVertex {
        pos: [f32::from(tag).to_bits(), 1.0f32.to_bits()],
        uv: [0.5f32.to_bits(), 0.5f32.to_bits()],
        color: [tag, tag, tag, 255],
    }
}

fn triangle(first: u8) -> PaintMesh {
    PaintMesh {
        indices: vec![0, 1, 2],
        vertices: vec![vertex(first), vertex(first + 1), vertex(first + 2)],
    }
}

#[test]
fn extract_without_meshes_is_a_tessellation_error() {
    assert_eq!(extract(&Vec::new()), Err(BridgeError::UiTessellation));
}

#[test]
fn extract_converts_the_single_mesh() {
    let mesh = triangle(1);
    let frame = extract(&vec![mesh.clone()]).unwrap();
    assert_eq!(frame.indices, vec![0, 1, 2]);
    assert_eq!(frame.vertices.len(), 3);
    for (converted, source) in frame.vertices.iter().zip(mesh.vertices.iter()) {
        assert_eq!(*converted, EguiVertex::adapt(source));
    }
}

#[test]
fn extract_takes_only_the_first_mesh() {
    let frame = extract(&vec![triangle(1), triangle(50), triangle(100)]).unwrap();
    assert_eq!(frame, FrameMesh::from_paint(&triangle(1)));
    assert_eq!(frame.vertices[0].srgba.repr, [1, 1, 1, 255]);
}

#[test]
fn extract_copies_indices_as_they_are() {
    let mesh = PaintMesh {
        indices: vec![2, 0, 1, 1, 0, 2],
        vertices: vec![vertex(1), vertex(2), vertex(3)],
    };
    let frame = extract(&vec![mesh]).unwrap();
    assert_eq!(frame.indices, vec![2, 0, 1, 1, 0, 2]);
}

#[test]
fn extract_refuses_an_index_beyond_the_vertices() {
    let mesh = PaintMesh {
        indices: vec![0, 1, 3],
        vertices: vec![vertex(1), vertex(2), vertex(3)],
    };
    assert_eq!(extract(&vec![mesh]), Err(BridgeError::UiTessellation));
    let lone = PaintMesh { indices: vec![5, 5, 5], vertices: vec![] };
    assert_eq!(extract(&vec![lone, triangle(1)]), Err(BridgeError::UiTessellation));
}

#[test]
fn extract_refuses_indices_that_do_not_come_in_threes() {
    let mesh = PaintMesh {
        indices: vec![0, 1, 2, 0],
        vertices: vec![vertex(1), vertex(2), vertex(3)],
    };
    assert_eq!(extract(&vec![mesh]), Err(BridgeError::UiTessellation));
}

#[test]
fn extract_looks_at_the_first_mesh_only() {
    let broken = PaintMesh { indices: vec![9], vertices: vec![] };
    let frame = extract(&vec![triangle(1), broken]).unwrap();
    assert_eq!(frame, FrameMesh::from_paint(&triangle(1)));
}

#[test]
fn extract_of_an_empty_first_mesh_is_an_empty_frame() {
    let frame = extract(&vec![PaintMesh { indices: vec![], vertices: vec![] }, triangle(1)]).unwrap();
    assert_eq!(frame.vertex_count(), 0);
    assert_eq!(frame.index_count(), 0);
    assert!(frame.is_valid());
    assert!(frame.is_triangle_list());
    assert!(frame.is_well_formed());
}

#[test]
fn frame_of_a_valid_mesh_has_every_index_below_the_vertex_count() {
    let mesh = PaintMesh {
        indices: vec![0, 1, 2, 2, 3, 0],
        vertices: vec![vertex(1), vertex(2), vertex(3), vertex(4)],
    };
    let frame = extract(&vec![mesh]).unwrap();
    assert!(frame.is_valid());
    assert!(frame.is_well_formed());
    assert_eq!(frame.index_count() % 3, 0);
    for index in &frame.indices {
        assert!((*index as usize) < frame.vertex_count());
    }
}

#[test]
fn index_equal_to_the_vertex_count_is_out_of_range() {
    let frame = FrameMesh::from_paint(&PaintMesh {
        indices: vec![0, 1, 3],
        vertices: vec![vertex(1), vertex(2), vertex(3)],
    });
    assert!(!frame.is_valid());
}

#[test]
fn index_into_no_vertices_is_out_of_range() {
    let frame = FrameMesh::from_paint(&PaintMesh { indices: vec![0], vertices: vec![] });
    assert!(!frame.is_valid());
}

#[test]
fn counts_and_triangle_list() {
    let frame = FrameMesh::from_paint(&PaintMesh {
        indices: vec![0, 1, 2, 0],
        vertices: vec![vertex(1), vertex(2), vertex(3)],
    });
    assert_eq!(frame.vertex_count(), 3);
    assert_eq!(frame.index_count(), 4);
    assert!(!frame.is_triangle_list());
    assert!(frame.is_valid());
    assert!(!frame.is_well_formed());
    assert!(FrameMesh::from_paint(&triangle(1)).is_triangle_list());
    assert!(FrameMesh::from_paint(&triangle(1)).is_well_formed());
}
