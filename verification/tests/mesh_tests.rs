use rustgl::mesh::{index_buffer_contents, n_inds, n_verts, INDICES, VERTEX_COUNT};

#[test]
fn counts() {
    assert_eq!(n_verts(), 5);
    assert_eq!(n_inds(), 9);
    assert_eq!(VERTEX_COUNT, 5);
    assert_eq!(INDICES.len(), 9);
}

#[test]
fn index_list() {
    assert_eq!(INDICES, [0, 1, 4, 1, 2, 4, 2, 3, 4]);
}

#[test]
fn indices_name_existing_vertices_in_whole_triangles() {
    let list = INDICES.to_vec();
    assert_eq!(list.len() % 3, 0);
    for index in &list {
        assert!(u32::from(*index) < n_verts());
    }
    for vertex in 0..5u16 {
        assert!(list.contains(&vertex));
    }
}

#[test]
fn buffer_contents_are_the_memory_image() {
    let bytes = index_buffer_contents();
    assert_eq!(bytes.len(), 18);
    let mut expected: Vec<u8> = Vec::new();
    for index in INDICES {
        expected.extend_from_slice(&index.to_ne_bytes());
    }
    assert_eq!(bytes, expected);
}

#[test]
fn buffer_contents_in_one_byte_order() {
    let bytes = index_buffer_contents();
    let little: Vec<u8> = vec![0, 0, 1, 0, 4, 0, 1, 0, 2, 0, 4, 0, 2, 0, 3, 0, 4, 0];
    let big: Vec<u8> = vec![0, 0, 0, 1, 0, 4, 0, 1, 0, 2, 0, 4, 0, 2, 0, 3, 0, 4];
    assert!(bytes == little || bytes == big);
}
