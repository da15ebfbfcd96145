use std::io::Write;

use smxdasm::errors::{Error, IoError};
use smxdasm::headers::{CompressionType, SMXHeader, FILE_MAGIC};

fn put_u32(out: &mut Vec<u8>, v: u32) {
    out.extend_from_slice(&v.to_le_bytes());
}

fn put_i32(out: &mut Vec<u8>, v: i32) {
    out.extend_from_slice(&v.to_le_bytes());
}

/// The fixed header of a container.
fn fixed_header(
    version: u16,
    compression: u8,
    disk_size: i32,
    image_size: i32,
    section_count: u8,
    string_table_offset: i32,
    data_offset: i32,
) -> Vec<u8> {
    let mut out = Vec::new();
    put_u32(&mut out, FILE_MAGIC);
    out.extend_from_slice(&version.to_le_bytes());
    out.push(compression);
    put_i32(&mut out, disk_size);
    put_i32(&mut out, image_size);
    out.push(section_count);
    put_i32(&mut out, string_table_offset);
    put_i32(&mut out, data_offset);
    out
}

/// An uncompressed image with the given sections: the fixed header, the
/// directory, the string table, and the contents of the sections.
fn image_of(version: u16, sections: &[(&str, Vec<u8>)]) -> Vec<u8> {
    let count = sections.len();
    let table = 24 + 12 * count;
    let mut strings: Vec<u8> = Vec::new();
    let mut name_offsets = Vec::new();
    for (name, _) in sections {
        name_offsets.push(strings.len() as i32);
        strings.extend_from_slice(name.as_bytes());
        strings.push(0);
    }
    let data_start = table + strings.len();
    let mut contents: Vec<u8> = Vec::new();
    let mut directory: Vec<u8> = Vec::new();
    for (k, (_, bytes)) in sections.iter().enumerate() {
        put_i32(&mut directory, name_offsets[k]);
        put_i32(&mut directory, (data_start + contents.len()) as i32);
        put_i32(&mut directory, bytes.len() as i32);
        contents.extend_from_slice(bytes);
    }
    let total = (data_start + contents.len()) as i32;
    let mut out = fixed_header(version, 0, total, total, count as u8, table as i32, data_start as i32);
    out.extend_from_slice(&directory);
    out.extend_from_slice(&strings);
    out.extend_from_slice(&contents);
    out
}

/// The container on disk whose image is `image`, with everything from the
/// data offset on compressed.
fn compressed(image: &[u8]) -> Vec<u8> {
    let data_offset = i32::from_le_bytes([image[20], image[21], image[22], image[23]]) as usize;
    let mut encoder = flate2::write::ZlibEncoder::new(Vec::new(), flate2::Compression::default());
    encoder.write_all(&image[data_offset..]).unwrap();
    let tail = encoder.finish().unwrap();
    let mut out = image[..data_offset].to_vec();
    out[6] = 1;
    let disk_size = (data_offset + tail.len()) as i32;
    out[7..11].copy_from_slice(&disk_size.to_le_bytes());
    out.extend_from_slice(&tail);
    out
}

#[test]
fn test_header() {
    let data = image_of(0x0102, &[(".names", b"foo\0".to_vec()), (".custom", vec![1, 2, 3])]);
    let d = SMXHeader::new(&data).unwrap();
    println!("{:?}", d);
    assert_eq!(d.magic, 0x5350_4646);
    assert_eq!(d.version, 0x0102);
    assert_eq!(d.compression_type, CompressionType::CompressionNone);
    assert_eq!(d.disk_size as usize, data.len());
    assert_eq!(d.image_size as usize, data.len());
    assert_eq!(d.section_count, 2);
    assert_eq!(d.string_table_offset, 48);
    assert_eq!(d.data_offset, 63);
    assert_eq!(d.sections.len(), 2);
    assert_eq!(d.sections[0].name, ".names");
    assert_eq!(d.sections[0].name_offset, 0);
    assert_eq!(d.sections[0].data_offset, 63);
    assert_eq!(d.sections[0].size, 4);
    assert_eq!(d.sections[1].name, ".custom");
    assert_eq!(d.sections[1].name_offset, 7);
    assert_eq!(d.sections[1].data_offset, 67);
    assert_eq!(d.sections[1].size, 3);
    assert!(!d.debug_packed);
}

#[test]
fn truncated_magic_is_an_underrun() {
    let r = SMXHeader::new(&[0u8, 0, 0]);
    assert_eq!(r.err(), Some(Error::Io(IoError::UnexpectedEof)));
}

#[test]
fn empty_input_is_an_underrun() {
    assert_eq!(SMXHeader::new(&[]).err(), Some(Error::Io(IoError::UnexpectedEof)));
}

#[test]
fn wrong_magic_is_refused() {
    let mut data = image_of(0x0101, &[]);
    data[0] ^= 0xff;
    assert_eq!(SMXHeader::new(&data).err(), Some(Error::InvalidMagic));
    assert_eq!(SMXHeader::new(&[1, 2, 3, 4]).err(), Some(Error::InvalidMagic));
    assert_eq!(SMXHeader::new(&[0x46, 0x46, 0x50, 0x52, 0]).err(), Some(Error::InvalidMagic));
}

#[test]
fn magic_alone_is_an_underrun() {
    assert_eq!(
        SMXHeader::new(&[0x46, 0x46, 0x50, 0x53]).err(),
        Some(Error::Io(IoError::UnexpectedEof))
    );
    let data = image_of(0x0101, &[]);
    for len in 4..24 {
        assert_eq!(
            SMXHeader::new(&data[..len]).err(),
            Some(Error::Io(IoError::UnexpectedEof)),
            "length {}",
            len
        );
    }
}

#[test]
fn small_disk_size_is_refused() {
    let data = fixed_header(0x0101, 0, 23, 24, 0, 24, 24);
    assert_eq!(SMXHeader::new(&data).err(), Some(Error::InvalidSize));
    let data = fixed_header(0x0101, 0, -1, 24, 9, 0, 0);
    assert_eq!(SMXHeader::new(&data).err(), Some(Error::InvalidSize));
}

#[test]
fn small_image_size_is_refused() {
    let data = fixed_header(0x0101, 0, 24, 23, 0, 24, 24);
    assert_eq!(SMXHeader::new(&data).err(), Some(Error::InvalidSize));
    let data = fixed_header(0x0101, 1, 24, 0, 200, 0, 0);
    assert_eq!(SMXHeader::new(&data).err(), Some(Error::InvalidSize));
}

#[test]
fn small_string_table_offset_is_refused() {
    let data = fixed_header(0x0101, 0, 24, 24, 0, 23, 24);
    assert_eq!(SMXHeader::new(&data).err(), Some(Error::InvalidOffset));
    let data = fixed_header(0x0101, 0, 24, 24, 7, -5, 0);
    assert_eq!(SMXHeader::new(&data).err(), Some(Error::InvalidOffset));
}

#[test]
fn small_data_offset_is_refused() {
    let data = fixed_header(0x0101, 0, 24, 24, 0, 24, 23);
    assert_eq!(SMXHeader::new(&data).err(), Some(Error::InvalidOffset));
    // The sections are not looked at: there are none to read here.
    let data = fixed_header(0x0101, 0, 24, 24, 3, 24, 0);
    assert_eq!(SMXHeader::new(&data).err(), Some(Error::InvalidOffset));
}

#[test]
fn size_is_checked_before_offset() {
    let data = fixed_header(0x0101, 0, 0, 0, 0, 0, 0);
    assert_eq!(SMXHeader::new(&data).err(), Some(Error::InvalidSize));
}

#[test]
fn header_without_sections() {
    let data = fixed_header(0x0101, 0, 24, 24, 0, 24, 24);
    let h = SMXHeader::new(&data).unwrap();
    assert!(h.sections.is_empty());
    assert_eq!(h.data, data);
    assert_eq!(h.section_count, 0);
    assert!(h.debug_packed);
}

#[test]
fn uncompressed_image_is_the_input() {
    let data = image_of(0x0101, &[(".names", b"a\0bc\0".to_vec()), (".data", vec![9; 12])]);
    let h = SMXHeader::new(&data).unwrap();
    assert_eq!(h.data.len(), h.image_size as usize);
    assert_eq!(h.data, data);
}

#[test]
fn uncompressed_image_stops_at_image_size() {
    let mut data = image_of(0x0101, &[(".names", b"a\0".to_vec())]);
    let image_size = data.len();
    data.extend_from_slice(&[0xaa, 0xbb, 0xcc]);
    let h = SMXHeader::new(&data).unwrap();
    assert_eq!(h.data.len(), image_size);
    assert_eq!(&h.data[..], &data[..image_size]);
}

#[test]
fn uncompressed_image_longer_than_input_is_an_underrun() {
    let mut data = image_of(0x0101, &[(".names", b"a\0".to_vec())]);
    let claimed = (data.len() + 1) as i32;
    data[11..15].copy_from_slice(&claimed.to_le_bytes());
    assert_eq!(SMXHeader::new(&data).err(), Some(Error::Io(IoError::UnexpectedEof)));
}

#[test]
fn compressed_image_is_expanded() {
    let image = image_of(
        0x0102,
        &[(".names", b"foo\0bar\0baz\0".to_vec()), (".data", vec![7; 300])],
    );
    let disk = compressed(&image);
    assert!(disk.len() < image.len());
    let h = SMXHeader::new(&disk).unwrap();
    assert_eq!(h.compression_type, CompressionType::CompressionGZ);
    let data_offset = h.data_offset as usize;
    // The prefix is kept as it is on disk, the rest is what the tail expands to.
    assert_eq!(&h.data[..data_offset], &disk[..data_offset]);
    assert_eq!(&h.data[data_offset..], &image[data_offset..]);
    assert_eq!(h.data.len(), data_offset + (image.len() - data_offset));
    assert_eq!(h.image_size as usize, h.data.len());
    assert_eq!(h.sections.len(), 2);
    assert_eq!(h.sections[0].name, ".names");
    assert_eq!(h.sections[1].name, ".data");
}

#[test]
fn compressed_image_size_field_is_not_checked() {
    let image = image_of(0x0102, &[(".data", vec![7; 40])]);
    let mut disk = compressed(&image);
    let claimed = (image.len() + 1000) as i32;
    disk[11..15].copy_from_slice(&claimed.to_le_bytes());
    let h = SMXHeader::new(&disk).unwrap();
    assert_eq!(h.image_size, claimed);
    assert_eq!(h.data.len(), image.len());
}

#[test]
fn corrupt_compressed_tail_is_an_io_error() {
    let image = image_of(0x0102, &[(".data", vec![7; 40])]);
    let mut disk = compressed(&image);
    let data_offset = i32::from_le_bytes([disk[20], disk[21], disk[22], disk[23]]) as usize;
    for b in disk[data_offset..].iter_mut() {
        *b = 0xff;
    }
    assert_eq!(SMXHeader::new(&disk).err(), Some(Error::Io(IoError::Inflate)));
}

#[test]
fn compressed_data_offset_behind_input_is_an_underrun() {
    let data = fixed_header(0x0102, 1, 24, 24, 0, 24, 25);
    assert_eq!(SMXHeader::new(&data).err(), Some(Error::Io(IoError::UnexpectedEof)));
}

#[test]
fn any_compression_byte_but_one_means_none() {
    for byte in [0u8, 2, 3, 0x7f, 0xff] {
        assert_eq!(CompressionType::from(byte), CompressionType::CompressionNone);
        let mut data = image_of(0x0101, &[(".names", b"a\0".to_vec())]);
        data[6] = byte;
        let h = SMXHeader::new(&data).unwrap();
        assert_eq!(h.compression_type, CompressionType::CompressionNone);
        assert_eq!(h.data.len(), data.len());
    }
    assert_eq!(CompressionType::from(1), CompressionType::CompressionGZ);
    assert_eq!(CompressionType::CompressionGZ.label(), "GZip");
    assert_eq!(CompressionType::CompressionNone.label(), "None");
}

#[test]
fn debug_packed_needs_version_one_and_no_debug_natives() {
    let plain = image_of(0x0101, &[(".names", b"a\0".to_vec())]);
    assert!(SMXHeader::new(&plain).unwrap().debug_packed);
    let with_natives =
        image_of(0x0101, &[(".names", b"a\0".to_vec()), (".dbg.natives", vec![0; 4])]);
    assert!(!SMXHeader::new(&with_natives).unwrap().debug_packed);
    let newer = image_of(0x0102, &[(".names", b"a\0".to_vec())]);
    assert!(!SMXHeader::new(&newer).unwrap().debug_packed);
    let newer_with_natives = image_of(0x0102, &[(".dbg.natives", vec![0; 4])]);
    assert!(!SMXHeader::new(&newer_with_natives).unwrap().debug_packed);
    let similar = image_of(0x0101, &[(".dbg.native", vec![]), (".dbg.nativesx", vec![])]);
    assert!(SMXHeader::new(&similar).unwrap().debug_packed);
}

#[test]
fn negative_name_offset_is_an_offset_overflow() {
    let mut data = image_of(0x0101, &[(".names", b"a\0".to_vec())]);
    data[24..28].copy_from_slice(&(-1i32).to_le_bytes());
    assert_eq!(SMXHeader::new(&data).err(), Some(Error::OffsetOverflow));
}

#[test]
fn small_section_data_offset_is_an_offset_overflow() {
    let mut data = image_of(0x0101, &[(".names", b"a\0".to_vec())]);
    data[28..32].copy_from_slice(&23i32.to_le_bytes());
    assert_eq!(SMXHeader::new(&data).err(), Some(Error::OffsetOverflow));
}

#[test]
fn negative_section_size_is_a_size_overflow() {
    let mut data = image_of(0x0101, &[(".names", b"a\0".to_vec())]);
    data[32..36].copy_from_slice(&(-1i32).to_le_bytes());
    assert_eq!(SMXHeader::new(&data).err(), Some(Error::SizeOverflow));
}

#[test]
fn first_bad_section_decides() {
    let mut data = image_of(0x0101, &[(".a", vec![]), (".b", vec![])]);
    // The second entry has a negative name offset, the first a negative size.
    data[36..40].copy_from_slice(&(-1i32).to_le_bytes());
    data[32..36].copy_from_slice(&(-1i32).to_le_bytes());
    assert_eq!(SMXHeader::new(&data).err(), Some(Error::SizeOverflow));
}

#[test]
fn directory_behind_the_image_is_an_underrun() {
    let data = fixed_header(0x0101, 0, 24, 24, 1, 24, 24);
    assert_eq!(SMXHeader::new(&data).err(), Some(Error::Io(IoError::UnexpectedEof)));
}

#[test]
fn section_name_without_end_is_an_underrun() {
    let mut data = image_of(0x0101, &[(".names", vec![])]);
    let last = data.len() - 1;
    assert_eq!(data[last], 0);
    data[last] = b'x';
    assert_eq!(SMXHeader::new(&data).err(), Some(Error::Io(IoError::UnexpectedEof)));
}

#[test]
fn section_name_behind_the_image_is_an_underrun() {
    let mut data = image_of(0x0101, &[(".names", vec![])]);
    data[24..28].copy_from_slice(&10_000i32.to_le_bytes());
    assert_eq!(SMXHeader::new(&data).err(), Some(Error::Io(IoError::UnexpectedEof)));
}

#[test]
fn section_name_that_is_not_utf8_is_read_lossily() {
    let mut data = image_of(0x0101, &[("ab", vec![])]);
    let at = data.len() - 3;
    data[at] = 0xff;
    let h = SMXHeader::new(&data).unwrap();
    assert_eq!(h.sections[0].name, "\u{fffd}b");
}

#[test]
fn header_parts_can_be_read_apart() {
    let data = image_of(0x0101, &[(".names", b"a\0".to_vec())]);
    let fixed = SMXHeader::read_fixed(&data).unwrap();
    assert_eq!(fixed.version, 0x0101);
    assert_eq!(fixed.section_count, 1);
    let h = SMXHeader::from_image(fixed, data.clone()).unwrap();
    assert_eq!(h.sections[0].name, ".names");
    assert_eq!(h.data, data);
    assert!(h.debug_packed);
}

#[test]
fn errors_have_messages() {
    assert_eq!(Error::InvalidMagic.message(), "Invalid magic header");
    assert_eq!(Error::InvalidSize.message(), "Invalid size");
    assert_eq!(Error::InvalidOffset.message(), "Invalid offset");
    assert_eq!(Error::InvalidIndex.message(), "Invalid index");
    assert_eq!(Error::OffsetOverflow.message(), "Offset overflow");
    assert_eq!(Error::SizeOverflow.message(), "Size overflow");
    assert_eq!(Error::Other("Function does not start with PROC").message(), "Function does not start with PROC");
    assert_eq!(Error::Io(IoError::UnexpectedEof).message(), "failed to fill whole buffer");
    assert_eq!(Error::Io(IoError::Inflate).message(), "corrupt deflate stream");
}

#[test]
fn version_constants() {
    assert_eq!(SMXHeader::SP1_VERSION_1_0, 0x0101);
    assert_eq!(SMXHeader::SP1_VERSION_1_1, 0x0102);
    assert_eq!(SMXHeader::SP1_VERSION_MIN, SMXHeader::SP1_VERSION_1_0);
    assert_eq!(SMXHeader::SP1_VERSION_MAX, SMXHeader::SP1_VERSION_1_1);
}
