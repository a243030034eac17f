//! String decoding, textures, the storage bridge and log attachment.

use open_asset_importer::import::{PrimitiveType, PrimitiveTypes};
use open_asset_importer::io::{read_elements, write_elements, File, MemFile, SeekFrom};
use open_asset_importer::log::LogStream;
use open_asset_importer::raw::{read_le32, read_le64, read_str_payload, AiStr, Texel};
use open_asset_importer::texture::{Texture, TextureData};

#[test]
fn string_decoding_reads_exactly_the_declared_length() {
    // The declared length governs: the embedded zero byte is data, and
    // the trailing storage past the length is not.
    let s = AiStr { length: 5, data: b"a\0b12___extra".to_vec() };
    assert_eq!(s.decode(), b"a\0b12".to_vec());
    assert!(s.eq_bytes(&b"a\0b12".to_vec()));
    assert!(!s.eq_bytes(&b"a\0b1".to_vec()));
    assert!(!s.eq_bytes(&b"a\0b13".to_vec()));
}

#[test]
fn little_endian_readers_match_the_wire() {
    let bytes = vec![0x78, 0x56, 0x34, 0x12, 0xEF, 0xCD, 0xAB, 0x89];
    assert_eq!(read_le32(&bytes, 0), 0x1234_5678);
    assert_eq!(read_le32(&bytes, 4), 0x89AB_CDEF);
    assert_eq!(read_le64(&bytes, 0), 0x89AB_CDEF_1234_5678);
}

#[test]
fn string_payload_respects_its_length_prefix() {
    let mut d = 3u32.to_le_bytes().to_vec();
    d.extend_from_slice(b"abcdef");
    assert_eq!(read_str_payload(&d), Some(b"abc".to_vec()));
    let short = 9u32.to_le_bytes().to_vec();
    assert_eq!(read_str_payload(&short), None);
}

#[test]
fn primitive_type_bits_round_trip() {
    assert_eq!(PrimitiveType::try_from(1), Some(PrimitiveType::Point));
    assert_eq!(PrimitiveType::try_from(2), Some(PrimitiveType::Line));
    assert_eq!(PrimitiveType::try_from(4), Some(PrimitiveType::Triangle));
    assert_eq!(PrimitiveType::try_from(8), Some(PrimitiveType::Polygon));
    assert_eq!(PrimitiveType::try_from(3), None);
    let set = PrimitiveTypes::from_bits(4 | 8).unwrap();
    assert!(set.contains(PrimitiveType::Triangle));
    assert!(!set.contains(PrimitiveType::Point));
    assert_eq!(PrimitiveTypes::from_bits(0x10), None);
}

#[test]
fn texture_data_flattens_to_bgra_bytes() {
    let data = TextureData {
        texels: vec![
            Texel { b: 1, g: 2, r: 3, a: 4 },
            Texel { b: 5, g: 6, r: 7, a: 8 },
        ],
    };
    assert_eq!(data.bytes(), vec![1, 2, 3, 4, 5, 6, 7, 8]);
}

#[test]
fn texture_format_hint_ends_at_the_terminator() {
    let tex = Texture {
        m_width: 1,
        m_height: 2,
        m_format_hint: b"png\0\0\0\0\0\0".to_vec(),
        m_filename: AiStr::new(b"f.png".to_vec()),
        m_data: Some(TextureData { texels: vec![Texel { b: 0, g: 0, r: 0, a: 0 }; 2] }),
    };
    assert_eq!(tex.format_hint(), Some(b"png".to_vec()));
    assert_eq!(tex.size(), (1, 2));
    assert_eq!(tex.filename(), b"f.png".to_vec());
    assert_eq!(tex.data().unwrap().texels().len(), 2);

    let raw = Texture {
        m_width: 0,
        m_height: 0,
        m_format_hint: vec![0; 9],
        m_filename: AiStr::new(b"".to_vec()),
        m_data: None,
    };
    assert_eq!(raw.format_hint(), None);
    assert!(raw.data().is_none());
}

#[test]
fn strided_read_counts_only_full_elements() {
    // Eleven bytes read four at a time: two full elements come back,
    // the trailing short read ends the batch without error.
    let mut f = MemFile::new((0u8..11).collect());
    let (bytes, n) = read_elements(&mut f, 4, 3).unwrap();
    assert_eq!(n, 2);
    assert_eq!(bytes, (0u8..8).collect::<Vec<u8>>());
}

#[test]
fn byte_sized_read_takes_what_is_there() {
    let mut f = MemFile::new(vec![9, 8, 7]);
    let (bytes, n) = read_elements(&mut f, 1, 10).unwrap();
    assert_eq!(n, 3);
    assert_eq!(bytes, vec![9, 8, 7]);
}

#[test]
fn strided_write_moves_whole_elements() {
    let mut f = MemFile::new(Vec::new());
    let data: Vec<u8> = (0u8..12).collect();
    let n = write_elements(&mut f, &data, 4, 3).unwrap();
    assert_eq!(n, 3);
    assert_eq!(f.data, data);
}

#[test]
fn storage_positions_follow_seeks() {
    let mut f = MemFile::new(vec![10, 20, 30, 40]);
    assert_eq!(f.size(), 4);
    assert_eq!(f.tell(), 0);
    f.seek(SeekFrom::Start(2)).unwrap();
    assert_eq!(f.read(10), Ok(vec![30, 40]));
    assert_eq!(f.tell(), 4);
    f.seek(SeekFrom::End(-1)).unwrap();
    assert_eq!(f.read(1), Ok(vec![40]));
    f.seek(SeekFrom::Current(-2)).unwrap();
    assert_eq!(f.tell(), 2);
    assert!(f.seek(SeekFrom::End(-9)).is_err());
    f.flush();
    f.close();
}

#[test]
fn writes_past_the_end_pad_with_zero_bytes() {
    let mut f = MemFile::new(vec![1]);
    f.seek(SeekFrom::Start(3)).unwrap();
    assert_eq!(f.write(&vec![9, 9]), Ok(2));
    assert_eq!(f.data, vec![1, 0, 0, 9, 9]);
}

/// A backend whose every transfer fails.
struct BrokenFile;

impl File for BrokenFile {
    fn read(&mut self, _len: usize) -> Result<Vec<u8>, ()> {
        Err(())
    }
    fn write(&mut self, _buf: &Vec<u8>) -> Result<usize, ()> {
        Err(())
    }
    fn tell(&mut self) -> u64 {
        0
    }
    fn size(&mut self) -> u64 {
        0
    }
    fn seek(&mut self, _pos: SeekFrom) -> Result<(), ()> {
        Err(())
    }
    fn flush(&mut self) {}
    fn close(&mut self) {}
}

#[test]
fn failing_backend_errors_bulk_and_ends_strides_empty() {
    // The byte-sized bulk path surfaces the failure as an error; the
    // stride path ends the batch early instead, with zero elements.
    let mut f = BrokenFile;
    assert_eq!(read_elements(&mut f, 1, 4), Err(()));
    assert_eq!(write_elements(&mut f, &vec![0; 4], 1, 4), Err(()));
    assert_eq!(read_elements(&mut f, 2, 2), Ok((Vec::new(), 0)));
    assert_eq!(write_elements(&mut f, &vec![0; 4], 2, 2), Ok(0));
}

#[test]
fn log_attachment_is_idempotent() {
    let mut stream = LogStream::new();
    assert!(!stream.attached());
    // Only the first attach reaches the engine.
    assert!(stream.attach());
    assert!(!stream.attach());
    assert!(stream.attached());
    // Only the first detach reaches it, and never for a stream that was
    // not attached.
    assert!(stream.detach());
    assert!(!stream.detach());
    assert!(!stream.attached());
}
