use bsp_reader::error::BspError;
use bsp_reader::header::Direntry;
use bsp_reader::reader::BSPReader;

fn push_i32(buf: &mut Vec<u8>, v: i32) {
    buf.extend_from_slice(&v.to_le_bytes());
}

fn push_f32(buf: &mut Vec<u8>, v: f32) {
    buf.extend_from_slice(&v.to_le_bytes());
}

fn push_name(buf: &mut Vec<u8>, name: &str) {
    let mut field = [0u8; 64];
    field[..name.len()].copy_from_slice(name.as_bytes());
    buf.extend_from_slice(&field);
}

/// A file with the given lumps, laid out one after another behind the header,
/// in directory order. Lumps not given are empty.
fn build_file(lumps: &[(usize, Vec<u8>)]) -> Vec<u8> {
    let mut entries = vec![(0i32, 0i32); 17];
    let mut body: Vec<u8> = Vec::new();
    for (index, bytes) in lumps {
        entries[*index] = (144 + body.len() as i32, bytes.len() as i32);
        body.extend_from_slice(bytes);
    }
    let mut buf: Vec<u8> = b"IBSP".to_vec();
    push_i32(&mut buf, 46);
    for (offset, length) in entries {
        push_i32(&mut buf, offset);
        push_i32(&mut buf, length);
    }
    buf.extend_from_slice(&body);
    buf
}

const ENTITIES: usize = 0;
const TEXTURES: usize = 1;
const PLANES: usize = 2;
const LEAFFACES: usize = 5;
const MESHVERTS: usize = 11;

#[test]
fn planes_scenario_decodes_one_plane() {
    let mut plane = Vec::new();
    for v in [0.0f32, 0.0, 1.0, 128.0] {
        push_f32(&mut plane, v);
    }
    let mut r = BSPReader::new(build_file(&[(PLANES, plane)]));
    let header = r.read_header().unwrap();
    assert_eq!(header.magic, "IBSP");
    assert_eq!(header.version, 46);
    assert_eq!(header.direntries.planes, Direntry { offset: 144, length: 16 });
    let planes = r.read_planes(&header.direntries).unwrap();
    assert_eq!(planes.len(), 1);
    let normal: Vec<f32> = planes[0].normal.iter().map(|b| f32::from_bits(*b)).collect();
    assert_eq!(normal, vec![0.0, 0.0, 1.0]);
    assert_eq!(f32::from_bits(planes[0].dist), 128.0);
}

#[test]
fn texture_scenario_decodes_name_and_flags() {
    let mut tex = Vec::new();
    push_name(&mut tex, "base_wall/concrete");
    push_i32(&mut tex, 0);
    push_i32(&mut tex, 0);
    let mut r = BSPReader::new(build_file(&[(TEXTURES, tex)]));
    let header = r.read_header().unwrap();
    let textures = r.read_textures(&header.direntries).unwrap();
    assert_eq!(textures.len(), 1);
    assert!(textures[0].name.starts_with("base_wall/concrete"));
    assert_eq!(textures[0].name, "base_wall/concrete");
    assert_eq!(textures[0].flags, 0);
    assert_eq!(textures[0].contents, 0);
}

#[test]
fn fixed_string_keeps_nul_padding() {
    let mut field = Vec::new();
    push_name(&mut field, "q3dm0");
    let mut r = BSPReader::new(field);
    let text = r.read_string(64).unwrap();
    assert_eq!(text.chars().count(), 64);
    assert_eq!(text.trim_end_matches('\0'), "q3dm0");
    assert_eq!(r.position(), 64);
}

#[test]
fn record_names_stop_at_first_nul() {
    let mut field = Vec::new();
    push_name(&mut field, "q3dm0");
    push_i32(&mut field, 0);
    push_i32(&mut field, 0);
    let length = field.len() as i32;
    let mut r = BSPReader::new(field);
    let textures = r
        .read_list::<bsp_reader::records::Texture>(&Direntry { offset: 0, length })
        .unwrap();
    assert_eq!(textures[0].name, "q3dm0");
}

#[test]
fn fixed_string_without_nul_keeps_every_byte() {
    let mut r = BSPReader::new(b"IBSPrest".to_vec());
    assert_eq!(r.read_string(4), Ok("IBSP".to_string()));
    assert_eq!(r.read_string(4), Ok("rest".to_string()));
}

#[test]
fn fixed_string_checks_bytes_after_nul() {
    let mut r = BSPReader::new(vec![b'a', b'b', 0, 0xff, 0xfe]);
    assert_eq!(r.read_string(5), Err(BspError::InvalidText));
}

#[test]
fn fixed_string_keeps_text_after_nul() {
    let mut r = BSPReader::new(vec![b'a', b'b', 0, b'c', 0]);
    assert_eq!(r.read_string(5), Ok("ab\0c\0".to_string()));
}

#[test]
fn fixed_string_rejects_invalid_utf8() {
    let mut r = BSPReader::new(vec![b'a', 0xff, b'b', 0]);
    assert_eq!(r.read_string(4), Err(BspError::InvalidText));
}

#[test]
fn fixed_string_decodes_multibyte_utf8() {
    let mut r = BSPReader::new("h\u{e9}!\0".as_bytes().to_vec());
    assert_eq!(r.read_string(5), Ok("h\u{e9}!\0".to_string()));
}

#[test]
fn fixed_string_past_end_is_out_of_range() {
    let mut r = BSPReader::new(vec![b'a'; 10]);
    assert_eq!(r.read_string(11), Err(BspError::OutOfRange));
}

#[test]
fn partial_record_is_not_decoded() {
    let mut mv = Vec::new();
    push_i32(&mut mv, 7);
    push_i32(&mut mv, -3);
    mv.extend_from_slice(&[1, 2]);
    let mut r = BSPReader::new(build_file(&[(MESHVERTS, mv)]));
    let header = r.read_header().unwrap();
    assert_eq!(header.direntries.meshverts.length, 10);
    assert_eq!(r.read_meshverts(&header.direntries), Ok(vec![7, -3]));
    assert_eq!(r.position(), 144 + 8);
}

#[test]
fn record_count_is_length_over_size() {
    let mut leaffaces = Vec::new();
    for v in 0..5 {
        push_i32(&mut leaffaces, v * 10);
    }
    let mut r = BSPReader::new(build_file(&[(LEAFFACES, leaffaces)]));
    let header = r.read_header().unwrap();
    assert_eq!(r.read_leaffaces(&header.direntries), Ok(vec![0, 10, 20, 30, 40]));
    assert_eq!(r.read_leafbrushes(&header.direntries), Ok(vec![]));
}

#[test]
fn lump_past_end_is_out_of_range() {
    let mut mv = Vec::new();
    push_i32(&mut mv, 1);
    push_i32(&mut mv, 2);
    let mut file = build_file(&[(MESHVERTS, mv)]);
    file.truncate(file.len() - 1);
    let mut r = BSPReader::new(file);
    let header = r.read_header().unwrap();
    assert_eq!(r.read_meshverts(&header.direntries), Err(BspError::OutOfRange));
}

#[test]
fn partial_record_past_end_is_out_of_range() {
    let mut mv = Vec::new();
    push_i32(&mut mv, 1);
    mv.extend_from_slice(&[9, 9]);
    let mut file = build_file(&[(MESHVERTS, mv)]);
    file.truncate(file.len() - 1);
    let mut r = BSPReader::new(file);
    let header = r.read_header().unwrap();
    assert_eq!(r.read_meshverts(&header.direntries), Err(BspError::OutOfRange));
}

#[test]
fn negative_direntry_is_out_of_range() {
    let mut r = BSPReader::new(vec![0u8; 64]);
    assert_eq!(
        r.read_list::<i32>(&Direntry { offset: -4, length: 8 }),
        Err(BspError::OutOfRange)
    );
    assert_eq!(
        r.read_list::<i32>(&Direntry { offset: 4, length: -8 }),
        Err(BspError::OutOfRange)
    );
    assert_eq!(r.read_list::<i32>(&Direntry { offset: 8, length: 8 }), Ok(vec![0, 0]));
}

#[test]
fn header_rejects_wrong_magic() {
    let mut file = build_file(&[]);
    file[0] = b'X';
    let mut r = BSPReader::new(file);
    assert_eq!(r.read_header().unwrap_err(), BspError::BadMagic);
}

#[test]
fn header_rejects_wrong_version() {
    let mut file = build_file(&[]);
    file[4] = 47;
    let mut r = BSPReader::new(file);
    assert_eq!(r.read_header().unwrap_err(), BspError::BadVersion);
}

#[test]
fn header_rejects_short_file() {
    let mut file = build_file(&[]);
    file.truncate(143);
    let mut r = BSPReader::new(file);
    assert_eq!(r.read_header().unwrap_err(), BspError::OutOfRange);
}

#[test]
fn header_is_read_at_the_position() {
    let file = build_file(&[(ENTITIES, b"{}\0".to_vec())]);
    let mut r = BSPReader::new(file.clone());
    r.jump(100);
    assert_eq!(r.read_header().unwrap_err(), BspError::OutOfRange);
    let mut shifted = vec![0xee; 10];
    shifted.extend_from_slice(&file);
    let mut r = BSPReader::new(shifted);
    r.jump(10);
    let header = r.read_header().unwrap();
    assert_eq!(header.direntries.entities, Direntry { offset: 144, length: 3 });
    assert_eq!(r.position(), 154);
    r.jump(0);
    assert_eq!(r.read_header().unwrap_err(), BspError::BadMagic);
}

#[test]
fn entities_text_is_read_whole() {
    let text = b"{\n\"classname\" \"worldspawn\"\n}\n\0".to_vec();
    let mut r = BSPReader::new(build_file(&[(ENTITIES, text)]));
    let header = r.read_header().unwrap();
    assert_eq!(
        r.read_entities(&header.direntries),
        Ok("{\n\"classname\" \"worldspawn\"\n}\n\0".to_string())
    );
    assert_eq!(r.position(), 144 + 30);
}

#[test]
fn entities_with_invalid_text_fail() {
    let mut r = BSPReader::new(build_file(&[(ENTITIES, vec![b'{', 0xc3, b'}'])]));
    let header = r.read_header().unwrap();
    assert_eq!(r.read_entities(&header.direntries), Err(BspError::InvalidText));
}

#[test]
fn primitive_reads_are_little_endian() {
    let mut r = BSPReader::new(vec![0x78, 0x56, 0x34, 0x12, 0xfe, 0xff, 0xff, 0xff, 0, 0, 0xc0, 0x3f, 0xab]);
    assert_eq!(r.read_int(), Ok(0x12345678));
    assert_eq!(r.read_int(), Ok(-2));
    assert_eq!(r.read_float().map(f32::from_bits), Ok(1.5));
    assert_eq!(r.read_ubyte(), Ok(0xab));
    assert_eq!(r.read_ubyte(), Err(BspError::OutOfRange));
    assert_eq!(r.read_int(), Err(BspError::OutOfRange));
    assert_eq!(r.read_float(), Err(BspError::OutOfRange));
    assert_eq!(r.position(), 13);
}

#[test]
fn jump_then_read() {
    let mut r = BSPReader::new(vec![1, 2, 3, 4, 5, 0, 0, 0]);
    r.jump(4);
    assert_eq!(r.read_int(), Ok(5));
    r.jump(1);
    assert_eq!(r.read_ubyte(), Ok(2));
    r.jump(7);
    assert_eq!(r.read_int(), Err(BspError::OutOfRange));
}

#[test]
fn direntry_reads_offset_then_length() {
    let mut buf = Vec::new();
    push_i32(&mut buf, 1000);
    push_i32(&mut buf, -1);
    buf.push(0);
    let mut r = BSPReader::new(buf);
    assert_eq!(r.read_direntry(), Ok(Direntry { offset: 1000, length: -1 }));
    assert_eq!(r.read_direntry(), Err(BspError::OutOfRange));
}

#[test]
fn direntries_are_in_file_order() {
    let mut buf = Vec::new();
    for i in 0..17 {
        push_i32(&mut buf, i * 8);
        push_i32(&mut buf, i);
    }
    let mut r = BSPReader::new(buf.clone());
    let d = r.read_direntries().unwrap();
    assert_eq!(d.entities, Direntry { offset: 0, length: 0 });
    assert_eq!(d.planes, Direntry { offset: 16, length: 2 });
    assert_eq!(d.vertexes, Direntry { offset: 80, length: 10 });
    assert_eq!(d.faces, Direntry { offset: 104, length: 13 });
    assert_eq!(d.visdata, Direntry { offset: 128, length: 16 });
    let mut short = BSPReader::new(buf[..135].to_vec());
    assert_eq!(short.read_direntries().unwrap_err(), BspError::OutOfRange);
}
