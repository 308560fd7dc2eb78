use bsp_reader::error::BspError;
use bsp_reader::header::Direntry;
use bsp_reader::mesh::{face_refs_valid, references_valid, triangle_indices};
use bsp_reader::reader::BSPReader;
use bsp_reader::records::{Face, Model};

fn words(ints: &[i32]) -> Vec<u8> {
    ints.iter().flat_map(|v| v.to_le_bytes()).collect()
}

fn floats(fs: &[f32]) -> Vec<u8> {
    fs.iter().flat_map(|v| v.to_le_bytes()).collect()
}

fn bits(fs: &[f32]) -> Vec<u32> {
    fs.iter().map(|f| f.to_bits()).collect()
}

/// A reader over `bytes` and the entry that spans them all.
fn lump(bytes: Vec<u8>) -> (BSPReader, Direntry) {
    let length = bytes.len() as i32;
    (BSPReader::new(bytes), Direntry { offset: 0, length })
}

fn named(name: &str, a: i32, b: i32) -> Vec<u8> {
    let mut field = vec![0u8; 64];
    field[..name.len()].copy_from_slice(name.as_bytes());
    field.extend(words(&[a, b]));
    field
}

#[test]
fn texture_round_trip() {
    let (mut r, de) = lump(named("textures/gothic/wall", -7, 0x2000_0001));
    let v = r.read_list::<bsp_reader::records::Texture>(&de).unwrap();
    assert_eq!(v.len(), 1);
    assert_eq!(v[0].name, "textures/gothic/wall");
    assert_eq!(v[0].flags, -7);
    assert_eq!(v[0].contents, 0x2000_0001);
}

#[test]
fn effect_round_trip() {
    let mut bytes = named("fog", 3, -1);
    bytes.extend(named("water", i32::MIN, i32::MAX));
    let (mut r, de) = lump(bytes);
    let v = r.read_list::<bsp_reader::records::Effect>(&de).unwrap();
    assert_eq!(v.len(), 2);
    assert_eq!((v[0].name.as_str(), v[0].brush, v[0].unknown), ("fog", 3, -1));
    assert_eq!((v[1].name.as_str(), v[1].brush, v[1].unknown), ("water", i32::MIN, i32::MAX));
}

#[test]
fn effect_with_invalid_name_fails() {
    let mut bytes = named("fog", 3, -1);
    bytes[1] = 0xff;
    let (mut r, de) = lump(bytes);
    assert_eq!(r.read_list::<bsp_reader::records::Effect>(&de).unwrap_err(), BspError::InvalidText);
}

#[test]
fn plane_round_trip() {
    let (mut r, de) = lump(floats(&[0.25, -0.5, 0.8660254, -1234.125]));
    let v = r.read_list::<bsp_reader::records::Plane>(&de).unwrap();
    assert_eq!(v.len(), 1);
    assert_eq!(v[0].normal.to_vec(), bits(&[0.25, -0.5, 0.8660254]));
    assert_eq!(f32::from_bits(v[0].dist), -1234.125);
}

#[test]
fn node_round_trip() {
    let (mut r, de) = lump(words(&[5, -1, 12, -4096, -64, 0, 4096, 64, 128]));
    let v = r.read_list::<bsp_reader::records::Node>(&de).unwrap();
    assert_eq!(v.len(), 1);
    assert_eq!(v[0].plane, 5);
    assert_eq!(v[0].children, [-1, 12]);
    assert_eq!(v[0].mins, [-4096, -64, 0]);
    assert_eq!(v[0].maxs, [4096, 64, 128]);
}

#[test]
fn leaf_round_trip() {
    let (mut r, de) = lump(words(&[-1, 2, -8, -16, -24, 8, 16, 24, 100, 3, 200, 4]));
    let v = r.read_list::<bsp_reader::records::Leaf>(&de).unwrap();
    let l = &v[0];
    assert_eq!((l.cluster, l.area), (-1, 2));
    assert_eq!((l.mins, l.maxs), ([-8, -16, -24], [8, 16, 24]));
    assert_eq!((l.leafface, l.n_leaffaces, l.leafbrush, l.n_leafbrushes), (100, 3, 200, 4));
}

#[test]
fn model_round_trip() {
    let mut bytes = floats(&[-1.5, -2.5, -3.5, 1.5, 2.5, 3.5]);
    bytes.extend(words(&[10, 20, 30, -40]));
    let (mut r, de) = lump(bytes);
    let v = r.read_list::<bsp_reader::records::Model>(&de).unwrap();
    let m = &v[0];
    assert_eq!(m.mins.to_vec(), bits(&[-1.5, -2.5, -3.5]));
    assert_eq!(m.maxs.to_vec(), bits(&[1.5, 2.5, 3.5]));
    assert_eq!((m.face, m.n_faces, m.brush, m.n_brushes), (10, 20, 30, -40));
}

#[test]
fn brush_and_brushside_round_trip() {
    let (mut r, de) = lump(words(&[1, 6, -2, 9, 10, 11]));
    let brushes = r.read_list::<bsp_reader::records::Brush>(&de).unwrap();
    assert_eq!(brushes.len(), 2);
    assert_eq!((brushes[1].brushside, brushes[1].n_brushsides, brushes[1].texture), (9, 10, 11));
    let sides = r.read_list::<bsp_reader::records::Brushside>(&de).unwrap();
    assert_eq!(sides.len(), 3);
    assert_eq!((sides[1].plane, sides[1].texture), (-2, 9));
}

#[test]
fn vertex_round_trip_is_44_bytes() {
    let mut bytes = floats(&[1.0, -2.0, 3.5, 0.125, 0.75, -0.5, 2.0, 0.0, 0.0, -1.0]);
    bytes.extend([255, 128, 0, 7]);
    bytes.extend(floats(&[9.0, 8.0, 7.0, 0.0, 0.0, 0.0, 0.0, 1.0, 0.0, 0.0]));
    bytes.extend([1, 2, 3, 4]);
    assert_eq!(bytes.len(), 88);
    let (mut r, de) = lump(bytes);
    let v = r.read_list::<bsp_reader::records::Vertex>(&de).unwrap();
    assert_eq!(v.len(), 2);
    assert_eq!(v[0].position.to_vec(), bits(&[1.0, -2.0, 3.5]));
    assert_eq!(v[0].texcoord[0].to_vec(), bits(&[0.125, 0.75]));
    assert_eq!(v[0].texcoord[1].to_vec(), bits(&[-0.5, 2.0]));
    assert_eq!(v[0].normal.to_vec(), bits(&[0.0, 0.0, -1.0]));
    assert_eq!(v[0].color, [255, 128, 0, 7]);
    assert_eq!(v[1].position.to_vec(), bits(&[9.0, 8.0, 7.0]));
    assert_eq!(v[1].color, [1, 2, 3, 4]);
}

#[test]
fn face_round_trip() {
    let mut bytes = words(&[3, -1, 1, 100, 4, 50, 6, 2, 10, 20, 16, 8]);
    bytes.extend(floats(&[1.5, 2.5, 3.5, 0.0, 1.0, 0.0, 0.5, 0.0, -0.5, 0.0, 0.0, 1.0]));
    bytes.extend(words(&[-9, 33]));
    assert_eq!(bytes.len(), 104);
    let (mut r, de) = lump(bytes);
    let v = r.read_list::<Face>(&de).unwrap();
    let f = &v[0];
    assert_eq!((f.texture, f.effect, f.f_type, f.vertex), (3, -1, 1, 100));
    assert_eq!((f.n_vertexes, f.meshvert, f.n_meshverts, f.lm_index), (4, 50, 6, 2));
    assert_eq!((f.lm_start, f.lm_size), ([10, 20], [16, 8]));
    assert_eq!(f.lm_origin.to_vec(), bits(&[1.5, 2.5, 3.5]));
    assert_eq!(f.lm_vecs[0].to_vec(), bits(&[0.0, 1.0, 0.0]));
    assert_eq!(f.lm_vecs[1].to_vec(), bits(&[0.5, 0.0, -0.5]));
    assert_eq!(f.normal.to_vec(), bits(&[0.0, 0.0, 1.0]));
    assert_eq!(f.size, [-9, 33]);
}

#[test]
fn int_lump_round_trip() {
    let (mut r, de) = lump(words(&[0, -1, i32::MIN, i32::MAX, 65536]));
    assert_eq!(r.read_list::<i32>(&de), Ok(vec![0, -1, i32::MIN, i32::MAX, 65536]));
}

fn face(f_type: i32, vertex: i32, meshvert: i32, n_meshverts: i32) -> Face {
    Face {
        texture: 0,
        effect: -1,
        f_type,
        vertex,
        n_vertexes: 4,
        meshvert,
        n_meshverts,
        lm_index: 0,
        lm_start: [0, 0],
        lm_size: [0, 0],
        lm_origin: [0; 3],
        lm_vecs: [[0; 3]; 2],
        normal: [0; 3],
        size: [0, 0],
    }
}

fn model(face: i32, n_faces: i32) -> Model {
    Model { mins: [0; 3], maxs: [0; 3], face, n_faces, brush: 0, n_brushes: 0 }
}

#[test]
fn triangle_indices_add_first_vertex() {
    let faces = vec![face(1, 0, 0, 3), face(2, 4, 0, 3), face(3, 4, 3, 3), face(1, 8, 0, 3)];
    let meshverts = vec![0, 1, 2, 2, 1, 0];
    assert_eq!(triangle_indices(&model(0, 3), &faces, &meshverts, 8), Ok(vec![0, 1, 2, 6, 5, 4]));
    assert_eq!(triangle_indices(&model(1, 1), &faces, &meshverts, 8), Ok(vec![]));
    assert_eq!(triangle_indices(&model(3, 0), &faces, &meshverts, 8), Ok(vec![]));
}

#[test]
fn triangle_indices_reject_bad_references() {
    let faces = vec![face(1, 0, 0, 3), face(3, 6, 3, 3)];
    let meshverts = vec![0, 1, 2, 2, 1, 0];
    assert_eq!(triangle_indices(&model(0, 3), &faces, &meshverts, 8), Err(BspError::BadIndex));
    assert_eq!(triangle_indices(&model(-1, 1), &faces, &meshverts, 8), Err(BspError::BadIndex));
    assert_eq!(triangle_indices(&model(1, 1), &faces, &meshverts, 8), Err(BspError::BadIndex));
    assert_eq!(triangle_indices(&model(1, 1), &faces, &meshverts, 9), Ok(vec![8, 7, 6]));
    let past = vec![face(1, 0, 4, 3)];
    assert_eq!(triangle_indices(&model(0, 1), &past, &meshverts, 8), Err(BspError::BadIndex));
    let negative = vec![face(1, -3, 0, 3)];
    assert_eq!(triangle_indices(&model(0, 1), &negative, &meshverts, 8), Err(BspError::BadIndex));
}

#[test]
fn references_valid_checks_models_and_faces() {
    let faces = vec![face(1, 0, 0, 3), face(2, 100, 50, 3), face(3, 4, 3, 3)];
    let meshverts = vec![0, 1, 2, 2, 1, 0];
    let models = vec![model(0, 3), model(1, 2)];
    assert!(references_valid(&models, &faces, &meshverts, 8));
    assert!(!references_valid(&models, &faces, &meshverts, 6));
    assert!(!references_valid(&vec![model(2, 2)], &faces, &meshverts, 8));
    assert!(face_refs_valid(&faces[1], &meshverts, 0));
    assert!(!face_refs_valid(&face(3, 0, 5, 2), &meshverts, 8));
}

#[test]
fn direntry_locates_lump_inside_buffer() {
    let mut bytes = vec![0xaa; 6];
    bytes.extend(words(&[42, -42]));
    let mut r = BSPReader::new(bytes);
    let de = Direntry { offset: 6, length: 8 };
    assert_eq!(r.read_list::<i32>(&de), Ok(vec![42, -42]));
    assert_eq!(r.position(), 14);
}
