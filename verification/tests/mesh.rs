use explain::gl_shaders::ShaderType;
use explain::gl_vertices::vertex_attribs::{point2, point3, vector2};
use explain::gl_vertices::{is_valid_layout, AttribPointer, MeshError, VertexAttrib, VertexData};

fn buffer_of_three() -> VertexData<u8> {
    let mut buffer: VertexData<u8> = VertexData::new(vec![point2(), vector2()]);
    let update = buffer.append(&mut vec![10, 11, 12], &mut vec![0, 1, 2], false);
    assert!(update.is_ok());
    buffer
}

#[test]
fn new_buffer_is_empty() {
    let buffer: VertexData<u8> = VertexData::new(vec![point2(), vector2()]);
    assert_eq!(buffer.data_len(), 0);
    assert!(buffer.data().is_empty());
    assert!(buffer.indices().is_empty());
    assert_eq!(buffer.draw(), 0);
    assert_eq!(buffer.attributes().len(), 2);
}

#[test]
fn stride_is_the_sum_of_the_sizes() {
    let two: VertexData<u8> = VertexData::new(vec![point2(), vector2()]);
    assert_eq!(two.stride(), 16);
    let three: VertexData<u8> = VertexData::new(vec![point3(), point2(), vector2()]);
    assert_eq!(three.stride(), 28);
    let none: VertexData<u8> = VertexData::new(vec![]);
    assert_eq!(none.stride(), 0);
}

#[test]
fn attributes_are_single_precision() {
    let a = point3();
    assert_eq!(a.gl_type(), gl::FLOAT);
    assert_eq!(a.gl_type(), 0x1406);
    assert_eq!(a.size(), 12);
    assert_eq!(a.components(), 3);
    let b = point2();
    assert_eq!((b.gl_type(), b.size(), b.components()), (gl::FLOAT, 8, 2));
    let c = vector2();
    assert_eq!((c.gl_type(), c.size(), c.components()), (gl::FLOAT, 8, 2));
}

#[test]
fn index_rebasing() {
    let mut buffer = buffer_of_three();
    let mut new_vertices: Vec<u8> = vec![20, 21];
    let mut new_indices: Vec<u32> = vec![0, 1, 0];
    let update = buffer.append(&mut new_vertices, &mut new_indices, false);
    assert!(update.is_ok());
    assert_eq!(buffer.data_len(), 5);
    assert_eq!(buffer.data(), &vec![10, 11, 12, 20, 21]);
    assert_eq!(buffer.indices(), &vec![0, 1, 2, 3, 4, 3]);
    assert_eq!(&buffer.indices()[3..], &[3, 4, 3]);
    assert!(new_vertices.is_empty());
    assert!(new_indices.is_empty());
}

#[test]
fn first_batch_keeps_its_indices() {
    let buffer = buffer_of_three();
    assert_eq!(buffer.indices(), &vec![0, 1, 2]);
    assert_eq!(buffer.draw(), 3);
}

#[test]
fn every_index_points_at_a_vertex() {
    let mut buffer = buffer_of_three();
    buffer.append(&mut vec![1, 2, 3, 4], &mut vec![0, 1, 3, 0, 2, 3], false).unwrap();
    buffer.append(&mut vec![5], &mut vec![0, 0, 0], true).unwrap();
    let n = buffer.data_len() as u32;
    assert_eq!(n, 8);
    assert!(buffer.indices().iter().all(|i| *i < n));
    assert_eq!(buffer.indices(), &vec![0, 1, 2, 3, 4, 6, 3, 5, 6, 7, 7, 7]);
}

#[test]
fn batch_with_index_past_its_vertices_is_refused() {
    let mut buffer = buffer_of_three();
    let mut new_vertices: Vec<u8> = vec![20, 21];
    let mut new_indices: Vec<u32> = vec![0, 2, 1];
    let r = buffer.append(&mut new_vertices, &mut new_indices, false);
    assert!(matches!(r, Err(MeshError::IndexOutOfRange)));
    assert_eq!(buffer.data(), &vec![10, 11, 12]);
    assert_eq!(buffer.indices(), &vec![0, 1, 2]);
    assert_eq!(new_vertices, vec![20, 21]);
    assert_eq!(new_indices, vec![0, 2, 1]);
}

#[test]
fn indices_without_vertices_are_refused() {
    let mut buffer = buffer_of_three();
    let r = buffer.append(&mut vec![], &mut vec![0], false);
    assert!(matches!(r, Err(MeshError::IndexOutOfRange)));
    assert_eq!(buffer.data_len(), 3);
}

#[test]
fn empty_batch_changes_nothing() {
    let mut buffer = buffer_of_three();
    let r = buffer.append(&mut vec![], &mut vec![], false);
    assert!(r.is_ok());
    assert_eq!(buffer.data(), &vec![10, 11, 12]);
    assert_eq!(buffer.indices(), &vec![0, 1, 2]);
}

#[test]
fn get_vertex_is_bounds_checked() {
    let buffer = buffer_of_three();
    assert_eq!(buffer.get_vertex(0), Ok(&10));
    assert_eq!(buffer.get_vertex(2), Ok(&12));
    assert_eq!(buffer.get_vertex(3), Err(MeshError::IndexOutOfRange));
    assert_eq!(buffer.get_vertex(usize::MAX), Err(MeshError::IndexOutOfRange));
    let empty: VertexData<u8> = VertexData::new(vec![point2()]);
    assert_eq!(empty.get_vertex(0), Err(MeshError::IndexOutOfRange));
}

#[test]
fn set_vertex_data_replaces_one_vertex() {
    let mut buffer = buffer_of_three();
    let update = buffer.set_vertex_data(1, 99, true).unwrap();
    assert_eq!(update.storage_type, gl::STATIC_DRAW);
    assert_eq!(buffer.data(), &vec![10, 99, 12]);
    assert_eq!(buffer.indices(), &vec![0, 1, 2]);
    let r = buffer.set_vertex_data(3, 7, false);
    assert!(matches!(r, Err(MeshError::IndexOutOfRange)));
    assert_eq!(buffer.data(), &vec![10, 99, 12]);
}

#[test]
fn update_names_the_storage_mode() {
    let buffer = buffer_of_three();
    let growing = buffer.update_on_gpu(false);
    assert_eq!(growing.storage_type, gl::DYNAMIC_DRAW);
    assert_eq!(growing.storage_type, 0x88E8);
    let last = buffer.update_on_gpu(true);
    assert_eq!(last.storage_type, gl::STATIC_DRAW);
    assert_eq!(last.storage_type, 0x88E4);
}

#[test]
fn update_places_each_attribute() {
    let buffer: VertexData<u8> = VertexData::new(vec![point3(), point2(), vector2()]);
    let update = buffer.update_on_gpu(false);
    assert_eq!(
        update.pointers,
        vec![
            AttribPointer { index: 0, components: 3, gl_type: gl::FLOAT, stride: 28, offset: 0 },
            AttribPointer { index: 1, components: 2, gl_type: gl::FLOAT, stride: 28, offset: 12 },
            AttribPointer { index: 2, components: 2, gl_type: gl::FLOAT, stride: 28, offset: 20 },
        ]
    );
}

#[test]
fn append_says_which_upload_is_due() {
    let mut buffer: VertexData<u8> = VertexData::new(vec![point2(), vector2()]);
    let update = buffer.append(&mut vec![1], &mut vec![0], true).unwrap();
    assert_eq!(update.storage_type, gl::STATIC_DRAW);
    assert_eq!(update.pointers.len(), 2);
    assert_eq!(update.pointers[1].offset, 8);
    assert_eq!(update.pointers[1].stride, 16);
    let update = buffer.append(&mut vec![2], &mut vec![0], false).unwrap();
    assert_eq!(update.storage_type, gl::DYNAMIC_DRAW);
}

#[test]
fn shader_kinds_are_those_of_the_bindings() {
    assert_eq!(ShaderType::Vertex.to_gl_type(), gl::VERTEX_SHADER);
    assert_eq!(ShaderType::Fragment.to_gl_type(), gl::FRAGMENT_SHADER);
    assert_eq!(ShaderType::Vertex.to_gl_type(), 0x8B31);
    assert_eq!(ShaderType::Fragment.to_gl_type(), 0x8B30);
    assert_ne!(ShaderType::Vertex, ShaderType::Fragment);
}

#[test]
fn layouts_of_the_canvas_are_valid() {
    assert!(is_valid_layout(&vec![]));
    assert!(is_valid_layout(&vec![point2(), vector2()]));
    assert!(is_valid_layout(&vec![point3(), point2(), vector2()]));
    assert!(is_valid_layout(&vec![VertexAttrib::new(gl::FLOAT, 0, 1)]));
    assert!(is_valid_layout(&vec![VertexAttrib::new(gl::FLOAT, 16, 4)]));
}

#[test]
fn attribute_has_one_to_four_components() {
    assert!(!is_valid_layout(&vec![VertexAttrib::new(gl::FLOAT, 0, 0)]));
    assert!(!is_valid_layout(&vec![VertexAttrib::new(gl::FLOAT, 20, 5)]));
    assert!(!is_valid_layout(&vec![VertexAttrib::new(gl::FLOAT, 4, -1)]));
    assert!(!is_valid_layout(&vec![point2(), VertexAttrib::new(gl::FLOAT, 20, 5)]));
    assert!(!is_valid_layout(&vec![VertexAttrib::new(gl::FLOAT, -4, 1)]));
}

#[test]
fn vertex_fits_in_i32_bytes() {
    let big = VertexAttrib::new(gl::FLOAT, i32::MAX - 8, 1);
    assert!(is_valid_layout(&vec![big]));
    assert!(is_valid_layout(&vec![big, point2()]));
    assert!(!is_valid_layout(&vec![big, point2(), VertexAttrib::new(gl::FLOAT, 1, 1)]));
    assert!(!is_valid_layout(&vec![point2(), big, point2()]));
    let buffer: VertexData<u8> = VertexData::new(vec![big, point2()]);
    assert_eq!(buffer.stride(), i32::MAX);
    assert_eq!(buffer.update_on_gpu(false).pointers[1].offset, i32::MAX - 8);
}
