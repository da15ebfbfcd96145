use std::rc::Rc;

use smxdasm::debuginfo::{SMXDebugGlobals, SMXDebugLocals, SMXDebugMethods};
use smxdasm::errors::{Error, IoError};
use smxdasm::headers::{SMXHeader, SectionEntry};
use smxdasm::rtti::{
    SMXRTTIClassDefTable, SMXRTTIEnumStructFieldTable, SMXRTTIEnumStructTable, SMXRTTIEnumTable,
    SMXRTTIFieldTable, SMXRTTIListTable, SMXRTTIMethodTable, SMXRTTINativeTable,
    SMXRTTITypedefTable, SMXRTTITypesetTable,
};
use smxdasm::bytes::ByteReader;
use smxdasm::sections::{
    BaseSection, SMXCalledFunctionsTable, SMXCodeV1Section, SMXDataSection, SMXDebugFilesTable,
    SMXDebugInfoSection, SMXDebugLinesTable, SMXNameTable, SMXNativeTable, SMXPublicTable,
    SMXPubvarTable, SMXTagTable, Tag, TagFlags,
};
use smxdasm::v1types::{
    CodeV1Flags, CodeV1Header, DataHeader, DebugFileEntry, DebugInfoHeader, DebugLineEntry,
    DebugMethodEntry, DebugVarEntry, NativeEntry, PublicEntry, PubvarEntry, SymbolScope,
    TagEntry,
};

fn words(values: &[i64]) -> Vec<u8> {
    let mut out = Vec::new();
    for v in values {
        out.extend_from_slice(&(*v as u32).to_le_bytes());
    }
    out
}

/// An uncompressed image with the given sections.
fn table_image(sections: &[(&str, Vec<u8>)]) -> Vec<u8> {
    let count = sections.len();
    let table = 24 + 12 * count;
    let mut strings: Vec<u8> = Vec::new();
    let mut name_offsets = Vec::new();
    for (name, _) in sections {
        name_offsets.push(strings.len() as i32);
        strings.extend_from_slice(name.as_bytes());
        strings.push(0);
    }
    let data_start = table + strings.len();
    let mut contents: Vec<u8> = Vec::new();
    let mut directory: Vec<u8> = Vec::new();
    for (k, (_, bytes)) in sections.iter().enumerate() {
        directory.extend_from_slice(&name_offsets[k].to_le_bytes());
        directory.extend_from_slice(&((data_start + contents.len()) as i32).to_le_bytes());
        directory.extend_from_slice(&(bytes.len() as i32).to_le_bytes());
        contents.extend_from_slice(bytes);
    }
    let total = (data_start + contents.len()) as i32;
    let mut out = Vec::new();
    out.extend_from_slice(&0x5350_4646u32.to_le_bytes());
    out.extend_from_slice(&0x0102u16.to_le_bytes());
    out.push(0);
    out.extend_from_slice(&total.to_le_bytes());
    out.extend_from_slice(&total.to_le_bytes());
    out.push(count as u8);
    out.extend_from_slice(&(table as i32).to_le_bytes());
    out.extend_from_slice(&(data_start as i32).to_le_bytes());
    out.extend_from_slice(&directory);
    out.extend_from_slice(&strings);
    out.extend_from_slice(&contents);
    out
}

const POOL: &[u8] = b"foo\0bar\0baz\0";

/// A header with a `.names` section that holds `POOL`, and one more section.
fn header_with(name: &str, bytes: Vec<u8>) -> Rc<SMXHeader> {
    let image = table_image(&[(".names", POOL.to_vec()), (name, bytes)]);
    Rc::new(SMXHeader::new(&image).unwrap())
}

fn names_of(header: &Rc<SMXHeader>) -> SMXNameTable {
    SMXNameTable::new(Rc::clone(header), header.sections[0].clone())
}

fn list(rows: u32, body: &[u8]) -> Vec<u8> {
    let mut out = Vec::new();
    out.extend_from_slice(&12u32.to_le_bytes());
    out.extend_from_slice(&0u32.to_le_bytes());
    out.extend_from_slice(&rows.to_le_bytes());
    out.extend_from_slice(body);
    out
}

#[test]
fn base_section_gives_the_contents() {
    let header = header_with(".x", vec![1, 2, 3, 4, 5]);
    let base = BaseSection::new(Rc::clone(&header), header.sections[1].clone());
    assert_eq!(base.get_data(), vec![1, 2, 3, 4, 5]);
    assert_eq!(base.section().name, ".x");
    assert_eq!(base.section().size, 5);
    let names = BaseSection::new(Rc::clone(&header), header.sections[0].clone());
    assert_eq!(names.get_data(), POOL.to_vec());
}

#[test]
fn names_are_found_by_offset() {
    let header = header_with(".x", vec![]);
    let mut names = names_of(&header);
    assert_eq!(names.string_at(0).unwrap(), "foo");
    assert_eq!(names.string_at(4).unwrap(), "bar");
    assert_eq!(names.string_at(8).unwrap(), "baz");
    assert_eq!(names.get_extends(), vec![0, 4, 8]);
}

#[test]
fn a_name_may_start_inside_another() {
    let header = header_with(".x", vec![]);
    let mut names = names_of(&header);
    assert_eq!(names.string_at(1).unwrap(), "oo");
    assert_eq!(names.string_at(3).unwrap(), "");
    assert_eq!(names.string_at(11).unwrap(), "");
}

#[test]
fn a_name_outside_the_pool_is_an_invalid_index() {
    let header = header_with(".x", vec![]);
    let mut names = names_of(&header);
    assert_eq!(names.string_at(12).err(), Some(Error::InvalidIndex));
    assert_eq!(names.string_at(13).err(), Some(Error::InvalidIndex));
    assert_eq!(names.string_at(i32::MAX).err(), Some(Error::InvalidIndex));
    assert_eq!(names.string_at(-1).err(), Some(Error::InvalidIndex));
    assert_eq!(names.string_at(i32::MIN).err(), Some(Error::InvalidIndex));
}

#[test]
fn a_lookup_can_be_repeated() {
    let header = header_with(".x", vec![]);
    let mut names = names_of(&header);
    let first = names.string_at(4).unwrap();
    let second = names.string_at(4).unwrap();
    let third = names.string_at(4).unwrap();
    assert_eq!(first, "bar");
    assert_eq!(first, second);
    assert_eq!(second, third);
    assert_eq!(names.string_at(0).unwrap(), "foo");
    assert_eq!(names.string_at(12).err(), Some(Error::InvalidIndex));
    assert_eq!(names.string_at(12).err(), Some(Error::InvalidIndex));
    let again = names.fresh().string_at(4).unwrap();
    assert_eq!(again, "bar");
}

#[test]
fn a_name_without_end_stops_at_the_end_of_the_pool() {
    let image = table_image(&[(".names", b"ab\0cd".to_vec()), (".x", b"zz".to_vec())]);
    let header = Rc::new(SMXHeader::new(&image).unwrap());
    let mut names = names_of(&header);
    assert_eq!(names.string_at(3).unwrap(), "cd");
    assert_eq!(names.get_extends(), vec![0]);
}

#[test]
fn every_root_names_the_bytes_up_to_the_next_nul() {
    let pool = b"\0a\0\0bcd\0e".to_vec();
    let image = table_image(&[(".names", pool.clone())]);
    let header = Rc::new(SMXHeader::new(&image).unwrap());
    let mut names = names_of(&header);
    let roots = names.get_extends();
    assert_eq!(roots, vec![0, 1, 3, 4]);
    for r in roots {
        let start = r as usize;
        let end = start + pool[start..].iter().position(|b| *b == 0).unwrap();
        assert_eq!(names.string_at(r).unwrap().as_bytes(), &pool[start..end]);
    }
    assert_eq!(names.get_extends(), vec![0, 1, 3, 4]);
}

#[test]
fn a_pool_without_nul_has_no_roots() {
    let image = table_image(&[(".names", b"abc".to_vec())]);
    let header = Rc::new(SMXHeader::new(&image).unwrap());
    let mut names = names_of(&header);
    assert_eq!(names.get_extends(), Vec::<i32>::new());
    let image = table_image(&[(".names", vec![])]);
    let header = Rc::new(SMXHeader::new(&image).unwrap());
    let mut names = names_of(&header);
    assert_eq!(names.get_extends(), Vec::<i32>::new());
    assert_eq!(names.string_at(0).err(), Some(Error::InvalidIndex));
}

#[test]
fn publics_are_read() {
    let header = header_with(".publics", words(&[0x100, 0, 0x2000, 8]));
    let mut names = names_of(&header);
    let table = SMXPublicTable::new(&header, &header.sections[1], &mut names).unwrap();
    assert_eq!(table.size(), 2);
    let rows = table.entries();
    assert_eq!(rows[0].address, 0x100);
    assert_eq!(rows[0].name_offset, 0);
    assert_eq!(rows[0].name, "foo");
    assert_eq!(rows[1].address, 0x2000);
    assert_eq!(rows[1].name_offset, 8);
    assert_eq!(rows[1].name, "baz");
    assert_eq!(table.get_entry(1).name, "baz");
    assert_eq!(table.entries_ref().len(), 2);
}

#[test]
fn a_table_whose_size_is_no_multiple_of_the_row_size_is_refused() {
    for extra in 1..8usize {
        let mut bytes = words(&[0, 0]);
        bytes.extend(std::iter::repeat(0).take(extra));
        let header = header_with(".t", bytes);
        let mut names = names_of(&header);
        let section = &header.sections[1];
        assert_eq!(
            SMXPublicTable::new(&header, section, &mut names).err(),
            Some(Error::InvalidSize)
        );
        assert_eq!(
            SMXPubvarTable::new(&header, section, &mut names).err(),
            Some(Error::InvalidSize)
        );
        assert_eq!(SMXTagTable::new(&header, section, &mut names).err(), Some(Error::InvalidSize));
        assert_eq!(
            SMXDebugFilesTable::new(&header, section, &mut names).err(),
            Some(Error::InvalidSize)
        );
        assert_eq!(SMXDebugLinesTable::new(&header, section).err(), Some(Error::InvalidSize));
        let natives = SMXNativeTable::new(&header, section, &mut names);
        if extra == 4 {
            assert_eq!(natives.unwrap().size(), 3);
        } else {
            assert_eq!(natives.err(), Some(Error::InvalidSize));
        }
    }
}

#[test]
fn the_row_count_is_the_size_by_the_row_size() {
    for rows in 0..5usize {
        let mut values = Vec::new();
        for k in 0..rows {
            values.push(k as i64);
            values.push(4);
        }
        let header = header_with(".t", words(&values));
        let mut names = names_of(&header);
        let section = &header.sections[1];
        assert_eq!(section.size as usize, rows * 8);
        assert_eq!(SMXPublicTable::new(&header, section, &mut names).unwrap().size(), rows);
        assert_eq!(SMXPubvarTable::new(&header, section, &mut names).unwrap().size(), rows);
        assert_eq!(SMXTagTable::new(&header, section, &mut names).unwrap().len(), rows);
        assert_eq!(SMXDebugFilesTable::new(&header, section, &mut names).unwrap().len(), rows);
        assert_eq!(SMXDebugLinesTable::new(&header, section).unwrap().len(), rows);
        assert_eq!(
            PublicEntry::new(&words(&values), section, &mut names).unwrap().len(),
            rows
        );
        assert_eq!(PubvarEntry::new(&words(&values), section, &mut names).unwrap().len(), rows);
        assert_eq!(TagEntry::new(&words(&values), section, &mut names).unwrap().len(), rows);
        assert_eq!(
            DebugFileEntry::new(&words(&values), section, &mut names).unwrap().len(),
            rows
        );
        assert_eq!(DebugLineEntry::new(&words(&values), section).unwrap().len(), rows);
    }
}

#[test]
fn a_row_with_a_bad_name_is_an_invalid_index() {
    let header = header_with(".publics", words(&[0x100, 0, 0x200, 12]));
    let mut names = names_of(&header);
    assert_eq!(
        SMXPublicTable::new(&header, &header.sections[1], &mut names).err(),
        Some(Error::InvalidIndex)
    );
    let header = header_with(".natives", words(&[-4]));
    let mut names = names_of(&header);
    assert_eq!(
        SMXNativeTable::new(&header, &header.sections[1], &mut names).err(),
        Some(Error::InvalidIndex)
    );
}

#[test]
fn rows_that_the_data_lacks_are_an_underrun() {
    let header = header_with(".publics", words(&[0x100, 0, 0x200, 4]));
    let mut names = names_of(&header);
    let section = &header.sections[1];
    let short = words(&[0x100, 0, 0x200]);
    assert_eq!(
        PublicEntry::new(&short, section, &mut names).err(),
        Some(Error::Io(IoError::UnexpectedEof))
    );
    assert_eq!(
        DebugLineEntry::new(&short, section).err(),
        Some(Error::Io(IoError::UnexpectedEof))
    );
    assert_eq!(
        NativeEntry::new(&words(&[0, 4, 8]), section, &mut names).err(),
        Some(Error::Io(IoError::UnexpectedEof))
    );
}

#[test]
fn natives_are_read() {
    let header = header_with(".natives", words(&[8, 0, 4]));
    let mut names = names_of(&header);
    let table = SMXNativeTable::new(&header, &header.sections[1], &mut names).unwrap();
    assert_eq!(table.size(), 3);
    let rows = table.entries();
    assert_eq!(rows[0].name, "baz");
    assert_eq!(rows[0].name_offset, 8);
    assert_eq!(rows[1].name, "foo");
    assert_eq!(rows[2].name, "bar");
    assert_eq!(table.get_entry(2).name_offset, 4);
    assert_eq!(NativeEntry::SIZE, 4);
}

#[test]
fn pubvars_are_read() {
    let header = header_with(".pubvars", words(&[0xffff_ffff, 4]));
    let mut names = names_of(&header);
    let table = SMXPubvarTable::new(&header, &header.sections[1], &mut names).unwrap();
    assert_eq!(table.size(), 1);
    assert_eq!(table.get_entry(0).address, 0xffff_ffff);
    assert_eq!(table.get_entry(0).name, "bar");
    assert_eq!(table.entries()[0].name_offset, 4);
}

#[test]
fn tags_show_their_id_and_flags() {
    let raw: [u32; 5] = [0x4000_0007, 0x2000_0001, 0x7e00_0000, 0x8000_0003, 0x01ff_ffff];
    let mut values = Vec::new();
    for t in raw {
        values.push(t as i64);
        values.push(0);
    }
    let header = header_with(".tags", words(&values));
    let mut names = names_of(&header);
    let table = SMXTagTable::new(&header, &header.sections[1], &mut names).unwrap();
    assert_eq!(table.len(), 5);
    assert!(!table.is_empty());
    for (k, t) in raw.iter().enumerate() {
        let tag = table.get_entry(k);
        assert_eq!(tag.value(), *t);
        assert_eq!(tag.id(), *t & !TagEntry::FLAGMASK);
        assert_eq!(tag.flags(), *t & TagEntry::FLAGMASK);
        assert_eq!(tag.id() | tag.flags(), tag.value());
        assert_eq!(tag.name(), "foo");
        assert_eq!(tag.entry().tag, *t);
    }
    assert_eq!(table.get_entry(0).id(), 7);
    assert_eq!(table.get_entry(0).flags(), 0x4000_0000);
    assert_eq!(table.get_entry(3).id(), 0x8000_0003);
    assert_eq!(table.get_entry(3).flags(), 0);
    assert_eq!(table.entries().len(), 5);
}

#[test]
fn the_flag_mask_is_the_union_of_the_flags() {
    let all = [
        TagFlags::Fixed,
        TagFlags::Function,
        TagFlags::Object,
        TagFlags::Enum,
        TagFlags::MethodMap,
        TagFlags::Struct,
    ];
    let mut mask = 0;
    for f in all {
        mask |= f.value();
    }
    assert_eq!(mask, TagEntry::FLAGMASK);
    assert_eq!(TagFlags::Fixed.value(), TagEntry::FIXED);
    assert_eq!(TagFlags::Function.value(), TagEntry::FUNC);
    assert_eq!(TagFlags::Object.value(), TagEntry::OBJECT);
    assert_eq!(TagFlags::Enum.value(), TagEntry::ENUM);
    assert_eq!(TagFlags::MethodMap.value(), TagEntry::METHODMAP);
    assert_eq!(TagFlags::Struct.value(), TagEntry::STRUCT);
    assert_eq!(TagEntry::FLAGMASK, 0x7e00_0000);
}

#[test]
fn the_first_tag_with_an_id_is_found() {
    let header = header_with(
        ".tags",
        words(&[0x4000_0007, 0, 0x2000_0007, 4, 0x0001_0009, 8, 0x0000_0009, 0]),
    );
    let mut names = names_of(&header);
    let mut table = SMXTagTable::new(&header, &header.sections[1], &mut names).unwrap();
    let found = table.find_tag(7).unwrap();
    assert_eq!(found.value(), 0x4000_0007);
    assert_eq!(found.name(), "foo");
    // Only the low sixteen bits of the id count.
    let found = table.find_tag(9).unwrap();
    assert_eq!(found.value(), 0x0001_0009);
    assert_eq!(found.name(), "baz");
    assert!(table.find_tag(8).is_none());
    assert_eq!(table.find_tag(7).unwrap().value(), 0x4000_0007);
    assert_eq!(table.find_tag(9).unwrap().value(), 0x0001_0009);
    assert!(table.find_tag(8).is_none());
    assert_eq!(table.len(), 4);
}

#[test]
fn a_tag_can_be_made_of_a_row() {
    let tag = Tag::new(TagEntry { tag: 0x1000_0002, name_offset: 3, name: "x".to_string() });
    assert_eq!(tag.id(), 2);
    assert_eq!(tag.flags(), 0x1000_0000);
    assert_eq!(tag.value(), 0x1000_0002);
    assert_eq!(tag.name(), "x");
    assert_eq!(tag.entry().name_offset, 3);
}

#[test]
fn the_data_header_is_read() {
    let mut bytes = words(&[4, 0x4000, 12]);
    bytes.extend_from_slice(&[0xde, 0xad, 0xbe, 0xef]);
    let header = header_with(".data", bytes.clone());
    let section = SMXDataSection::new(Rc::clone(&header), header.sections[1].clone()).unwrap();
    assert_eq!(section.header().data_size, 4);
    assert_eq!(section.header().memory_size, 0x4000);
    assert_eq!(section.header().data_offset, 12);
    assert_eq!(section.get_data_vec(), vec![0xde, 0xad, 0xbe, 0xef]);
    assert_eq!(DataHeader::new(&bytes).unwrap(), section.header());
    assert_eq!(DataHeader::SIZE, 12);
    for len in 0..12 {
        assert_eq!(DataHeader::new(&bytes[..len]).err(), Some(Error::Io(IoError::UnexpectedEof)));
    }
}

fn code_header_bytes(code_size: i32, version: u8, code_offset: i32) -> Vec<u8> {
    let mut out = Vec::new();
    out.extend_from_slice(&code_size.to_le_bytes());
    out.push(4);
    out.push(version);
    out.extend_from_slice(&1u16.to_le_bytes());
    out.extend_from_slice(&8i32.to_le_bytes());
    out.extend_from_slice(&code_offset.to_le_bytes());
    out
}

#[test]
fn the_code_header_is_read() {
    let mut bytes = code_header_bytes(8, 10, 16);
    bytes.extend_from_slice(&words(&[46, 48]));
    let h = CodeV1Header::new(&bytes).unwrap();
    assert_eq!(h.code_size, 8);
    assert_eq!(h.cell_size, 4);
    assert_eq!(h.code_version, 10);
    assert_eq!(h.flags, CodeV1Flags::Debug.value());
    assert_eq!(h.main_offset, 8);
    assert_eq!(h.code_offset, 16);
    assert_eq!(h.features, 0);
    assert_eq!(CodeV1Header::SIZE, 16);
    assert_eq!(CodeV1Header::VERSION_JIT1, 9);
    assert_eq!(CodeV1Header::VERSION_JIT2, 10);
    for len in 0..16 {
        assert_eq!(
            CodeV1Header::new(&bytes[..len]).err(),
            Some(Error::Io(IoError::UnexpectedEof))
        );
    }
    let header = header_with(".code", bytes);
    let section = SMXCodeV1Section::new(Rc::clone(&header), header.sections[1].clone()).unwrap();
    assert_eq!(section.header(), h);
    assert_eq!(section.get_data_vec(), words(&[46, 48]));
    assert_eq!(section.code_start(), header.data_offset + 16);
}

#[test]
fn a_newer_code_header_has_a_features_word() {
    let mut bytes = code_header_bytes(0, 13, 20);
    assert_eq!(CodeV1Header::new(&bytes).err(), Some(Error::Io(IoError::UnexpectedEof)));
    bytes.extend_from_slice(&[1, 2, 3]);
    assert_eq!(CodeV1Header::new(&bytes).err(), Some(Error::Io(IoError::UnexpectedEof)));
    bytes.push(4);
    let h = CodeV1Header::new(&bytes).unwrap();
    assert_eq!(h.code_version, 13);
    assert_eq!(h.features, 0);
    let older = code_header_bytes(0, 12, 16);
    assert_eq!(CodeV1Header::new(&older).unwrap().features, 0);
}

#[test]
fn the_debug_info_header_is_read() {
    let bytes = words(&[1, -2, 3, 4]);
    let h = DebugInfoHeader::new(&bytes).unwrap();
    assert_eq!((h.file_count, h.line_count, h.symbol_count, h.array_count), (1, -2, 3, 4));
    assert_eq!(DebugInfoHeader::new(&bytes[..15]).err(), Some(Error::Io(IoError::UnexpectedEof)));
    let header = header_with(".dbg.info", bytes);
    let section = SMXDebugInfoSection::new(&header, &header.sections[1]).unwrap();
    assert_eq!(section.file_count(), 1);
    assert_eq!(section.line_count(), -2);
    assert_eq!(section.symbol_count(), 3);
    assert_eq!(section.array_count(), 4);
}

#[test]
fn a_file_is_found_by_address() {
    let header = header_with(".dbg.files", words(&[10, 0, 20, 4, 20, 8, 30, 0]));
    let mut names = names_of(&header);
    let table = SMXDebugFilesTable::new(&header, &header.sections[1], &mut names).unwrap();
    assert_eq!(table.len(), 4);
    assert!(!table.is_empty());
    assert_eq!(table.find_file(0), None);
    assert_eq!(table.find_file(9), None);
    assert_eq!(table.find_file(10), Some("foo".to_string()));
    assert_eq!(table.find_file(19), Some("foo".to_string()));
    // Of rows with the same address the last is found.
    assert_eq!(table.find_file(20), Some("baz".to_string()));
    assert_eq!(table.find_file(29), Some("baz".to_string()));
    assert_eq!(table.find_file(30), Some("foo".to_string()));
    assert_eq!(table.find_file(u32::MAX), Some("foo".to_string()));
    assert_eq!(table.get_entry(1).name, "bar");
    assert_eq!(table.entries()[3].address, 30);
}

#[test]
fn nothing_is_found_in_an_empty_table() {
    let header = header_with(".dbg.files", vec![]);
    let mut names = names_of(&header);
    let table = SMXDebugFilesTable::new(&header, &header.sections[1], &mut names).unwrap();
    assert!(table.is_empty());
    assert_eq!(table.find_file(0), None);
    let lines = SMXDebugLinesTable::new(&header, &header.sections[1]).unwrap();
    assert!(lines.is_empty());
    assert_eq!(lines.find_file(5), None);
}

#[test]
fn a_line_is_found_by_address_and_counted_from_one() {
    let header = header_with(".dbg.lines", words(&[10, 0, 20, 41, 30, 0xffff_ffff]));
    let table = SMXDebugLinesTable::new(&header, &header.sections[1]).unwrap();
    assert_eq!(table.len(), 3);
    assert_eq!(table.find_file(9), None);
    assert_eq!(table.find_file(10), Some(1));
    assert_eq!(table.find_file(25), Some(42));
    assert_eq!(table.find_file(30), Some(0));
    assert_eq!(table.get_entry(1), DebugLineEntry { address: 20, line: 41 });
    assert_eq!(table.entries().len(), 3);
}

#[test]
fn called_functions_are_named_by_address() {
    let mut table = SMXCalledFunctionsTable::new();
    assert_eq!(table.size(), 0);
    table.add_function(0x1abc);
    table.add_function(0);
    table.add_function(0xffff_ffff);
    table.add_function(0x00A0_B0C0);
    assert_eq!(table.size(), 4);
    assert_eq!(table.get_entry(0).address, 0x1abc);
    assert_eq!(table.get_entry(0).name, "sub_1abc");
    assert_eq!(table.get_entry(1).name, "sub_0");
    assert_eq!(table.get_entry(2).name, "sub_ffffffff");
    assert_eq!(table.get_entry(3).name, "sub_a0b0c0");
    assert_eq!(table.entries()[3].address, 0x00a0_b0c0);
    assert_eq!(table.entries_ref().len(), 4);
    let empty = SMXCalledFunctionsTable::default();
    assert_eq!(empty.size(), 0);
}

#[test]
fn symbol_scopes_are_decoded() {
    assert_eq!(SymbolScope::from(0), SymbolScope::Global);
    assert_eq!(SymbolScope::from(1), SymbolScope::Local);
    assert_eq!(SymbolScope::from(2), SymbolScope::Static);
    assert_eq!(SymbolScope::from(3), SymbolScope::Arg);
    for other in 4..=255u8 {
        assert_eq!(SymbolScope::from(other), SymbolScope::Unknown);
        assert_eq!(SymbolScope::decode(other), SymbolScope::Unknown);
    }
    assert_eq!(SymbolScope::Global.label(), "Global");
    assert_eq!(SymbolScope::Local.label(), "Local");
    assert_eq!(SymbolScope::Static.label(), "Static");
    assert_eq!(SymbolScope::Arg.label(), "Arg");
    assert_eq!(SymbolScope::Unknown.label(), "Unknown");
}

fn var_row(address: i32, scope: u8, name: i32, start: i32, end: i32, type_id: i32) -> Vec<u8> {
    let mut out = Vec::new();
    out.extend_from_slice(&address.to_le_bytes());
    out.push(scope);
    out.extend_from_slice(&name.to_le_bytes());
    out.extend_from_slice(&start.to_le_bytes());
    out.extend_from_slice(&end.to_le_bytes());
    out.extend_from_slice(&type_id.to_le_bytes());
    out
}

#[test]
fn debug_rows_are_read() {
    let row = var_row(-8, 3, 4, 100, 200, 0x61);
    assert_eq!(row.len(), 21);
    let v = DebugVarEntry::new(&row).unwrap();
    assert_eq!(
        v,
        DebugVarEntry {
            address: -8,
            scope: SymbolScope::Arg,
            name_offset: 4,
            code_start: 100,
            code_end: 200,
            type_id: 0x61,
        }
    );
    assert_eq!(DebugVarEntry::new(&row[..20]).err(), Some(Error::Io(IoError::UnexpectedEof)));
    let m = DebugMethodEntry::new(&words(&[3, 9])).unwrap();
    assert_eq!(m, DebugMethodEntry { method_index: 3, first_local: 9 });
    assert_eq!(
        DebugMethodEntry::new(&words(&[3, 9])[..7]).err(),
        Some(Error::Io(IoError::UnexpectedEof))
    );
}

#[test]
fn debug_list_tables_are_read() {
    let header = header_with(".dbg.methods", list(2, &words(&[0, 0, 1, 5])));
    let methods = SMXDebugMethods::new(&header, &header.sections[1]).unwrap();
    assert_eq!(
        methods.entries(),
        vec![
            DebugMethodEntry { method_index: 0, first_local: 0 },
            DebugMethodEntry { method_index: 1, first_local: 5 },
        ]
    );
    let header = header_with(".dbg.methods", list(3, &words(&[0, 0, 1, 5])));
    assert_eq!(
        SMXDebugMethods::new(&header, &header.sections[1]).err(),
        Some(Error::Io(IoError::UnexpectedEof))
    );
    let header = header_with(".dbg.methods", vec![0; 11]);
    assert_eq!(
        SMXDebugMethods::new(&header, &header.sections[1]).err(),
        Some(Error::Io(IoError::UnexpectedEof))
    );
}

#[test]
fn globals_are_found_by_address() {
    let mut body = var_row(16, 0, 0, 0, 0, 1);
    body.extend(var_row(32, 0, 4, 0, 0, 2));
    body.extend(var_row(16, 2, 8, 0, 0, 3));
    let header = header_with(".dbg.globals", list(3, &body));
    let globals = SMXDebugGlobals::new(&header, &header.sections[1]).unwrap();
    assert_eq!(globals.entries().len(), 3);
    assert_eq!(globals.find_global(16).unwrap().name_offset, 0);
    assert_eq!(globals.find_global(32).unwrap().type_id, 2);
    assert_eq!(globals.find_global(17), None);
}

#[test]
fn locals_are_found_by_address_and_scope() {
    let mut body = var_row(-4, 1, 0, 100, 200, 1);
    body.extend(var_row(-4, 1, 4, 150, 160, 2));
    body.extend(var_row(-8, 1, 8, 100, 200, 3));
    let header = header_with(".dbg.locals", list(3, &body));
    let locals = SMXDebugLocals::new(&header, &header.sections[1]).unwrap();
    assert_eq!(locals.entries().len(), 3);
    assert_eq!(locals.find_local(100, -4).unwrap().name_offset, 0);
    assert_eq!(locals.find_local(200, -4).unwrap().name_offset, 0);
    // Of several that are in scope the last is found.
    assert_eq!(locals.find_local(155, -4).unwrap().name_offset, 4);
    assert_eq!(locals.find_local(150, -8).unwrap().name_offset, 8);
    assert_eq!(locals.find_local(99, -4), None);
    assert_eq!(locals.find_local(201, -4), None);
    assert_eq!(locals.find_local(150, -12), None);
}

#[test]
fn the_list_header_is_read() {
    let header = header_with(".x", vec![]);
    let mut table = SMXRTTIListTable::new(Rc::clone(&header), header.sections[1].clone());
    assert_eq!((table.header_size(), table.row_size(), table.row_count()), (0, 0, 0));
    let bytes = words(&[12, 16, 3, 99]);
    let mut rd = ByteReader::new(&bytes);
    table.init(&mut rd).unwrap();
    assert_eq!((table.header_size(), table.row_size(), table.row_count()), (12, 16, 3));
    assert_eq!(rd.pos, 12);
    assert_eq!(rd.read_u32().unwrap(), 99);
    assert_eq!(table.init(&mut rd).err(), Some(Error::Io(IoError::UnexpectedEof)));
    assert_eq!((table.header_size(), table.row_size(), table.row_count()), (12, 16, 3));
}

#[test]
fn rtti_enums_are_read() {
    let body = words(&[4, 0, 0, 0, 8, 0, 0, 0]);
    let header = header_with("rtti.enums", list(2, &body));
    let mut names = names_of(&header);
    let table =
        SMXRTTIEnumTable::new(Rc::clone(&header), header.sections[1].clone(), &mut names).unwrap();
    assert_eq!(table.enums(), vec!["bar".to_string(), "baz".to_string()]);
    // The reserved words of the last row may be missing.
    let header = header_with("rtti.enums", list(2, &words(&[4, 0, 0, 0, 8])));
    let mut names = names_of(&header);
    let table =
        SMXRTTIEnumTable::new(Rc::clone(&header), header.sections[1].clone(), &mut names).unwrap();
    assert_eq!(table.enums(), vec!["bar".to_string(), "baz".to_string()]);
    // Those of an earlier row may not.
    let header = header_with("rtti.enums", list(2, &words(&[4, 0, 0])));
    let mut names = names_of(&header);
    assert_eq!(
        SMXRTTIEnumTable::new(Rc::clone(&header), header.sections[1].clone(), &mut names).err(),
        Some(Error::Io(IoError::UnexpectedEof))
    );
}

#[test]
fn rtti_methods_are_read() {
    let header = header_with("rtti.methods", list(2, &words(&[0, 8, 24, 3, 4, 24, 40, 7])));
    let mut names = names_of(&header);
    let table = SMXRTTIMethodTable::new(Rc::clone(&header), header.sections[1].clone(), &mut names)
        .unwrap();
    let rows = table.methods();
    assert_eq!(rows.len(), 2);
    assert_eq!(rows[0].name, "foo");
    assert_eq!((rows[0].pcode_start, rows[0].pcode_end, rows[0].signature), (8, 24, 3));
    assert_eq!(rows[1].name, "bar");
    assert_eq!((rows[1].pcode_start, rows[1].pcode_end, rows[1].signature), (24, 40, 7));
    assert_eq!(table.methods_ref().len(), 2);
}

#[test]
fn a_bad_name_comes_before_a_missing_field() {
    // The name of a method is looked up before the rest of its row is read.
    let header = header_with("rtti.methods", list(1, &words(&[99])));
    let mut names = names_of(&header);
    assert_eq!(
        SMXRTTIMethodTable::new(Rc::clone(&header), header.sections[1].clone(), &mut names).err(),
        Some(Error::InvalidIndex)
    );
    let header = header_with("rtti.methods", list(1, &words(&[0, 1, 2])));
    let mut names = names_of(&header);
    assert_eq!(
        SMXRTTIMethodTable::new(Rc::clone(&header), header.sections[1].clone(), &mut names).err(),
        Some(Error::Io(IoError::UnexpectedEof))
    );
    // An enum struct is read whole before its name is looked up.
    let header = header_with("rtti.enumstructs", list(1, &words(&[99, 1])));
    let mut names = names_of(&header);
    assert_eq!(
        SMXRTTIEnumStructTable::new(Rc::clone(&header), header.sections[1].clone(), &mut names)
            .err(),
        Some(Error::Io(IoError::UnexpectedEof))
    );
    let header = header_with("rtti.enumstructs", list(1, &words(&[99, 1, 2])));
    let mut names = names_of(&header);
    assert_eq!(
        SMXRTTIEnumStructTable::new(Rc::clone(&header), header.sections[1].clone(), &mut names)
            .err(),
        Some(Error::InvalidIndex)
    );
}

#[test]
fn rtti_natives_typedefs_and_typesets_are_read() {
    let body = words(&[8, 0x61, 0, 0x11]);
    let header = header_with("rtti.natives", list(2, &body));
    let mut names = names_of(&header);
    let section = header.sections[1].clone();
    let natives =
        SMXRTTINativeTable::new(Rc::clone(&header), section.clone(), &mut names).unwrap().natives();
    assert_eq!(natives[0].name, "baz");
    assert_eq!(natives[0].signature, 0x61);
    assert_eq!(natives[1].name, "foo");
    let typedefs = SMXRTTITypedefTable::new(Rc::clone(&header), section.clone(), &mut names)
        .unwrap()
        .typedefs();
    assert_eq!(typedefs[0].name, "baz");
    assert_eq!(typedefs[0].type_id, 0x61);
    assert_eq!(typedefs[1].type_id, 0x11);
    let typesets = SMXRTTITypesetTable::new(Rc::clone(&header), section.clone(), &mut names)
        .unwrap()
        .typesets();
    assert_eq!(typesets.len(), 2);
    assert_eq!(typesets[1].name, "foo");
    assert_eq!(typesets[1].signature, 0x11);
}

#[test]
fn rtti_enum_structs_and_their_fields_are_read() {
    let header = header_with("rtti.enumstructs", list(1, &words(&[4, 2, 12])));
    let mut names = names_of(&header);
    let section = header.sections[1].clone();
    let rows = SMXRTTIEnumStructTable::new(Rc::clone(&header), section.clone(), &mut names)
        .unwrap()
        .entries();
    assert_eq!(rows.len(), 1);
    assert_eq!(rows[0].name, "bar");
    assert_eq!((rows[0].name_offset, rows[0].first_field, rows[0].size), (4, 2, 12));
    let fields = SMXRTTIEnumStructFieldTable::new(Rc::clone(&header), section, &mut names)
        .unwrap()
        .entries();
    assert_eq!(fields[0].name, "bar");
    assert_eq!((fields[0].name_offset, fields[0].type_id, fields[0].offset), (4, 2, 12));
}

#[test]
fn rtti_classdefs_are_read() {
    let body = words(&[1, 0, 3, 0, 0, 0, 0, 2, 8, 5, 0, 0, 0, 0]);
    let header = header_with("rtti.classdefs", list(2, &body));
    let mut names = names_of(&header);
    let rows =
        SMXRTTIClassDefTable::new(Rc::clone(&header), header.sections[1].clone(), &mut names)
            .unwrap()
            .defs();
    assert_eq!(rows.len(), 2);
    assert_eq!(rows[0].name, "foo");
    assert_eq!((rows[0].flags, rows[0].name_offset, rows[0].first_field), (1, 0, 3));
    assert_eq!(rows[1].name, "baz");
    assert_eq!((rows[1].flags, rows[1].name_offset, rows[1].first_field), (2, 8, 5));
}

#[test]
fn rtti_fields_are_read() {
    let mut body = Vec::new();
    body.extend_from_slice(&(-2i16).to_le_bytes());
    body.extend_from_slice(&4i32.to_le_bytes());
    body.extend_from_slice(&0x61i32.to_le_bytes());
    body.extend_from_slice(&7i16.to_le_bytes());
    body.extend_from_slice(&8i32.to_le_bytes());
    body.extend_from_slice(&(-1i32).to_le_bytes());
    let header = header_with("rtti.fields", list(2, &body));
    let mut names = names_of(&header);
    let rows = SMXRTTIFieldTable::new(Rc::clone(&header), header.sections[1].clone(), &mut names)
        .unwrap()
        .fields();
    assert_eq!(rows.len(), 2);
    assert_eq!(rows[0].name, "bar");
    assert_eq!((rows[0].flags, rows[0].name_offset, rows[0].type_id), (-2, 4, 0x61));
    assert_eq!(rows[1].name, "baz");
    assert_eq!((rows[1].flags, rows[1].name_offset, rows[1].type_id), (7, 8, -1));
}

#[test]
fn a_list_without_header_is_an_underrun() {
    let header = header_with("rtti.fields", vec![0; 11]);
    let mut names = names_of(&header);
    assert_eq!(
        SMXRTTIFieldTable::new(Rc::clone(&header), header.sections[1].clone(), &mut names).err(),
        Some(Error::Io(IoError::UnexpectedEof))
    );
    let header = header_with("rtti.fields", list(0, &[]));
    let mut names = names_of(&header);
    assert!(SMXRTTIFieldTable::new(Rc::clone(&header), header.sections[1].clone(), &mut names)
        .unwrap()
        .fields()
        .is_empty());
}

#[test]
fn little_endian_fields_are_read_in_order() {
    let bytes = [0x01u8, 0x02, 0x03, 0x04, 0xff, 0xff, 0xfe, 0xff, 0xff, 0xff, 0x80, 0x7f];
    let mut rd = ByteReader::new(&bytes);
    assert_eq!(rd.read_u32().unwrap(), 0x0403_0201);
    assert_eq!(rd.read_i16().unwrap(), -1);
    assert_eq!(rd.read_i32().unwrap(), -2);
    assert_eq!(rd.read_u8().unwrap(), 0x80);
    assert_eq!(rd.read_u8().unwrap(), 0x7f);
    assert_eq!(rd.read_u8().err(), Some(Error::Io(IoError::UnexpectedEof)));
    let mut rd = ByteReader::at(&bytes, 10);
    assert_eq!(rd.read_u16().unwrap(), 0x7f80);
    let mut rd = ByteReader::at(&bytes, 9);
    assert_eq!(rd.read_i32().err(), Some(Error::Io(IoError::UnexpectedEof)));
    assert_eq!(rd.pos, 9);
    rd.skip(2);
    assert_eq!(rd.read_u8().unwrap(), 0x7f);
    rd.skip(100);
    assert_eq!(rd.read_u8().err(), Some(Error::Io(IoError::UnexpectedEof)));
    let mut rd = ByteReader::at(&bytes, 1000);
    assert_eq!(rd.read_u8().err(), Some(Error::Io(IoError::UnexpectedEof)));
    let mut rd = ByteReader::at(&bytes, 8);
    assert_eq!(rd.read_i32().unwrap(), 0x7f80_ffffu32 as i32);
    let section = SectionEntry { name_offset: 0, data_offset: 24, size: 0, name: String::new() };
    assert_eq!(section.clone().size, 0);
}
