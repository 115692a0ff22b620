use frame_profiler::scene_file::{pack_texture_paths, texture_path, MeshRange, NonMaxU32, RawTexture};

#[test]
fn non_max_wraps_every_value_but_the_maximum() {
    assert_eq!(NonMaxU32::new(0).unwrap().get(), 0);
    assert_eq!(NonMaxU32::new(41).unwrap().get(), 41);
    assert_eq!(NonMaxU32::new(u32::MAX - 1).unwrap().get(), u32::MAX - 1);
    assert_eq!(NonMaxU32::new(u32::MAX), None);
    assert_eq!(NonMaxU32::new(7), NonMaxU32::new(7));
    assert_ne!(NonMaxU32::new(7), NonMaxU32::new(8));
}

#[test]
fn mesh_elements_are_three_per_triangle() {
    let range = MeshRange { triangle_offset: 10, triangle_count: 4, vertex_offset: 0, vertex_count: 12 };
    assert_eq!(range.element_offset(), 30);
    assert_eq!(range.element_byte_offset(), 120);
    assert_eq!(range.element_count(), 12);
}

#[test]
fn packed_paths_lie_one_after_the_other() {
    let paths = vec![b"a/b.png".to_vec(), Vec::new(), b"c.jpg".to_vec()];
    let (places, table) = pack_texture_paths(&paths);
    assert_eq!(
        places,
        vec![
            RawTexture { path_byte_offset: 0, path_byte_length: 7 },
            RawTexture { path_byte_offset: 7, path_byte_length: 0 },
            RawTexture { path_byte_offset: 7, path_byte_length: 5 },
        ]
    );
    assert_eq!(table, b"a/b.pngc.jpg".to_vec());
    for (place, path) in places.iter().zip(paths.iter()) {
        assert_eq!(texture_path(place, &table).as_ref(), Some(path));
    }
}

#[test]
fn packing_no_paths_gives_an_empty_table() {
    let (places, table) = pack_texture_paths(&Vec::new());
    assert!(places.is_empty());
    assert!(table.is_empty());
}

#[test]
fn path_beyond_the_table_is_refused() {
    let table = b"abcdef".to_vec();
    assert_eq!(texture_path(&RawTexture { path_byte_offset: 2, path_byte_length: 3 }, &table), Some(b"cde".to_vec()));
    assert_eq!(texture_path(&RawTexture { path_byte_offset: 6, path_byte_length: 0 }, &table), Some(Vec::new()));
    assert_eq!(texture_path(&RawTexture { path_byte_offset: 4, path_byte_length: 3 }, &table), None);
    assert_eq!(texture_path(&RawTexture { path_byte_offset: 7, path_byte_length: 0 }, &table), None);
    assert_eq!(texture_path(&RawTexture { path_byte_offset: u64::MAX, path_byte_length: 2 }, &table), None);
}
