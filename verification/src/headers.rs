//! The container header: magic and version, the optional compressed tail, and
//! the section directory.

use vstd::prelude::*;
use vstd::slice::slice_to_vec;
use vstd::string::StringExecFns;
use std::io::Read;
use flate2::read::ZlibDecoder;
use crate::bytes::{i32_at, u16_at, u32_at, ByteReader};
use crate::errors::{eof, Error, IoError};
use crate::rows::{collect, lemma_collect_fails, lemma_collect_ok};
use crate::text::{find_nul, first_nul, lossy_string, utf8_lossy};

verus! {

/// `std::io::Error`, the error that the readers of std report. Nothing is
/// said of its values; an error of the decoder is shown as
/// `IoError::Inflate`.
#[verifier::external_type_specification]
#[verifier::external_body]
pub struct ExIoError(std::io::Error);

/// What a zlib decoder reads out of `input`, or `None` where it reports an
/// error.
pub uninterp spec fn zlib_inflated(input: Seq<u8>) -> Option<Seq<u8>>;

/// `flate2::read::ZlibDecoder` over `input`, read to its end. What comes out,
/// and whether the decoder fails, depends on the input bytes alone.
#[verifier::external_body]
fn inflate(input: &[u8]) -> (r: Result<Vec<u8>, std::io::Error>)
    ensures
        match r {
            Ok(out) => zlib_inflated(input@) == Some(out@),
            Err(_) => zlib_inflated(input@) is None,
        },
{
    let mut out = Vec::new();
    match ZlibDecoder::new(input).read_to_end(&mut out) {
        Ok(_) => Ok(out),
        Err(e) => Err(e),
    }
}

#[derive(Debug, Clone, Copy, PartialEq, Eq)]
pub enum CompressionType {
    CompressionNone,
    CompressionGZ,
}

impl CompressionType {
    /// The compression that the header byte `byte` selects.
    pub open spec fn of(byte: u8) -> CompressionType {
        if byte == 1 {
            CompressionType::CompressionGZ
        } else {
            CompressionType::CompressionNone
        }
    }

    pub open spec fn spec_label(self) -> Seq<char> {
        match self {
            CompressionType::CompressionGZ => "GZip"@,
            CompressionType::CompressionNone => "None"@,
        }
    }

    /// The name under which the compression is shown.
    pub fn label(&self) -> (s: &'static str)
        ensures
            s@ == self.spec_label(),
    {
        match self {
            CompressionType::CompressionGZ => "GZip",
            CompressionType::CompressionNone => "None",
        }
    }
}

impl From<u8> for CompressionType {
    fn from(byte: u8) -> (r: Self) {
        match byte {
            1 => CompressionType::CompressionGZ,
            _ => CompressionType::CompressionNone,
        }
    }
}

impl vstd::std_specs::convert::FromSpecImpl<u8> for CompressionType {
    open spec fn obeys_from_spec() -> bool {
        true
    }

    open spec fn from_spec(byte: u8) -> Self {
        CompressionType::of(byte)
    }
}

/// One entry of the section directory.
#[derive(Debug)]
pub struct SectionEntry {
    /// Offset of the name in the string table.
    pub name_offset: i32,
    /// Offset of the section's contents in the image.
    pub data_offset: i32,
    /// Size of the section's contents.
    pub size: i32,
    /// The name, read from the string table.
    pub name: String,
}

/// A section entry with its name as text.
pub struct SectionModel {
    pub name_offset: i32,
    pub data_offset: i32,
    pub size: i32,
    pub name: Seq<char>,
}

impl View for SectionEntry {
    type V = SectionModel;

    open spec fn view(&self) -> SectionModel {
        SectionModel {
            name_offset: self.name_offset,
            data_offset: self.data_offset,
            size: self.size,
            name: self.name@,
        }
    }
}

impl Clone for SectionEntry {
    fn clone(&self) -> (r: Self)
        ensures
            r == *self,
    {
        SectionEntry {
            name_offset: self.name_offset,
            data_offset: self.data_offset,
            size: self.size,
            name: self.name.clone(),
        }
    }
}

impl SectionModel {
    /// What the directory requires of each entry.
    pub open spec fn valid(self) -> bool {
        self.name_offset >= 0 && self.data_offset >= HEADER_SIZE && self.size >= 0
    }

    /// Whether the section's contents lie inside an image of `len` bytes.
    pub open spec fn within(self, len: nat) -> bool {
        self.valid() && self.data_offset + self.size <= len
    }
}

/// The models of the entries of `v`, in order.
pub open spec fn section_models(v: Seq<SectionEntry>) -> Seq<SectionModel> {
    v.map_values(|s: SectionEntry| s@)
}

/// Whether a section of `sections` is called `name`.
pub open spec fn has_section_named(sections: Seq<SectionModel>, name: Seq<char>) -> bool {
    exists|k: int| 0 <= k < sections.len() && #[trigger] sections[k].name == name
}

/// SourcePawn file format magic number.
pub const FILE_MAGIC: u32 = 0x5350_4646;

/// Size of the fixed header, which is also the offset of the directory.
pub const HEADER_SIZE: i32 = 24;

/// Size of one directory entry.
pub const SECTION_ENTRY_SIZE: i32 = 12;

/// The fields of the fixed header that follow the magic number.
#[derive(Debug, Clone, Copy)]
pub struct FixedHeader {
    pub version: u16,
    pub compression_type: CompressionType,
    pub disk_size: i32,
    pub image_size: i32,
    pub section_count: u8,
    pub string_table_offset: i32,
    pub data_offset: i32,
}

/// The fixed header at the start of `d`, or the error of the first field that
/// cannot be read or is refused.
pub open spec fn fixed_header(d: Seq<u8>) -> Result<FixedHeader, Error> {
    if d.len() < 4 {
        Err(eof())
    } else if u32_at(d, 0) != FILE_MAGIC {
        Err(Error::InvalidMagic)
    } else if d.len() < 11 {
        Err(eof())
    } else if i32_at(d, 7) < HEADER_SIZE {
        Err(Error::InvalidSize)
    } else if d.len() < 15 {
        Err(eof())
    } else if i32_at(d, 11) < HEADER_SIZE {
        Err(Error::InvalidSize)
    } else if d.len() < 20 {
        Err(eof())
    } else if i32_at(d, 16) < HEADER_SIZE {
        Err(Error::InvalidOffset)
    } else if d.len() < 24 {
        Err(eof())
    } else if i32_at(d, 20) < HEADER_SIZE {
        Err(Error::InvalidOffset)
    } else {
        Ok(
            FixedHeader {
                version: u16_at(d, 4),
                compression_type: CompressionType::of(d[6]),
                disk_size: i32_at(d, 7),
                image_size: i32_at(d, 11),
                section_count: d[15],
                string_table_offset: i32_at(d, 16),
                data_offset: i32_at(d, 20),
            },
        )
    }
}

/// Whether `d` starts with a fixed header with the right magic number whose
/// disk size or image size is too small to hold the fixed header.
pub open spec fn refused_size(d: Seq<u8>) -> bool {
    d.len() >= 24 && u32_at(d, 0) == FILE_MAGIC && (i32_at(d, 7) < HEADER_SIZE || i32_at(d, 11)
        < HEADER_SIZE)
}

/// Whether `d` starts with a fixed header with the right magic number and
/// sizes whose string table offset or data offset lies inside the fixed
/// header.
pub open spec fn refused_offset(d: Seq<u8>) -> bool {
    d.len() >= 24 && u32_at(d, 0) == FILE_MAGIC && i32_at(d, 7) >= HEADER_SIZE && i32_at(d, 11)
        >= HEADER_SIZE && (i32_at(d, 16) < HEADER_SIZE || i32_at(d, 20) < HEADER_SIZE)
}

/// The part of a container `d` that a compressed container holds in zlib
/// form: everything from the header's data offset on.
pub open spec fn compressed_tail(d: Seq<u8>) -> Seq<u8> {
    d.subrange(i32_at(d, 20) as int, d.len() as int)
}

/// The image of a container `d` with fixed header `h`, where `inflated` is what
/// the compressed tail expands to. An uncompressed image is the first
/// `image_size` bytes of `d`; a compressed one is the bytes before the data
/// offset followed by the expanded tail.
pub open spec fn image_of(d: Seq<u8>, h: FixedHeader, inflated: Option<Seq<u8>>) -> Result<
    Seq<u8>,
    Error,
> {
    match h.compression_type {
        CompressionType::CompressionNone => if h.image_size > d.len() {
            Err(eof())
        } else {
            Ok(d.subrange(0, h.image_size as int))
        },
        CompressionType::CompressionGZ => if h.data_offset > d.len() {
            Err(eof())
        } else {
            match inflated {
                Some(tail) => Ok(d.subrange(0, h.data_offset as int) + tail),
                None => Err(Error::Io(IoError::Inflate)),
            }
        },
    }
}

/// Entry `k` of the directory of `image`, with its name read from the string
/// table at `table`.
pub open spec fn section_at(image: Seq<u8>, table: int, k: int) -> Result<SectionModel, Error> {
    let at = HEADER_SIZE + SECTION_ENTRY_SIZE * k;
    if image.len() < at + 4 {
        Err(eof())
    } else if i32_at(image, at) < 0 {
        Err(Error::OffsetOverflow)
    } else if image.len() < at + 8 {
        Err(eof())
    } else if i32_at(image, at + 4) < HEADER_SIZE {
        Err(Error::OffsetOverflow)
    } else if image.len() < at + 12 {
        Err(eof())
    } else if i32_at(image, at + 8) < 0 {
        Err(Error::SizeOverflow)
    } else {
        let start = table + i32_at(image, at);
        let end = first_nul(image, start, image.len() as int);
        if end >= image.len() {
            Err(eof())
        } else {
            Ok(
                SectionModel {
                    name_offset: i32_at(image, at),
                    data_offset: i32_at(image, at + 4),
                    size: i32_at(image, at + 8),
                    name: utf8_lossy(image.subrange(start, end)),
                },
            )
        }
    }
}

/// `section_at` as a function of the entry's number.
pub open spec fn section_of(image: Seq<u8>, table: int) -> spec_fn(int) -> Result<
    SectionModel,
    Error,
> {
    |k: int| section_at(image, table, k)
}

/// The first `count` entries of the directory of `image`, or the error of the
/// first entry that cannot be read or is refused.
pub open spec fn directory(image: Seq<u8>, table: int, count: nat) -> Result<
    Seq<SectionModel>,
    Error,
> {
    collect(section_of(image, table), count)
}

/// What a loaded header holds.
pub struct HeaderModel {
    pub magic: u32,
    pub version: u16,
    pub compression_type: CompressionType,
    pub disk_size: i32,
    pub image_size: i32,
    pub section_count: u8,
    pub string_table_offset: i32,
    pub data_offset: i32,
    pub data: Seq<u8>,
    pub sections: Seq<SectionModel>,
    pub debug_packed: bool,
}

/// The header with fixed part `h` over `image`: the directory is read from
/// the image, and the debug information counts as packed where the version is
/// 1.0 and no section is called `.dbg.natives`.
pub open spec fn assemble(h: FixedHeader, image: Seq<u8>) -> Result<HeaderModel, Error> {
    match directory(image, h.string_table_offset as int, h.section_count as nat) {
        Err(e) => Err(e),
        Ok(sections) => Ok(
            HeaderModel {
                magic: FILE_MAGIC,
                version: h.version,
                compression_type: h.compression_type,
                disk_size: h.disk_size,
                image_size: h.image_size,
                section_count: h.section_count,
                string_table_offset: h.string_table_offset,
                data_offset: h.data_offset,
                data: image,
                sections: sections,
                debug_packed: h.version == SMXHeader::SP1_VERSION_1_0 && !has_section_named(
                    sections,
                    ".dbg.natives"@,
                ),
            },
        ),
    }
}

/// What loading the container `d` gives, where `inflated` is what its
/// compressed tail expands to.
pub open spec fn load(d: Seq<u8>, inflated: Option<Seq<u8>>) -> Result<HeaderModel, Error> {
    match fixed_header(d) {
        Err(e) => Err(e),
        Ok(h) => match image_of(d, h, inflated) {
            Err(e) => Err(e),
            Ok(image) => assemble(h, image),
        },
    }
}

/// A loaded container header with its image and section directory.
#[derive(Debug)]
pub struct SMXHeader {
    pub magic: u32,
    pub version: u16,
    /// Compression of the container on disk. The image is always expanded.
    pub compression_type: CompressionType,
    pub disk_size: i32,
    pub image_size: i32,
    /// Number of entries in the section directory.
    pub section_count: u8,
    /// Offset of the string table that holds the section names.
    pub string_table_offset: i32,
    /// Offset at which the compressed part of the container starts.
    pub data_offset: i32,
    /// The image: the container with its compressed part expanded.
    pub data: Vec<u8>,
    pub sections: Vec<SectionEntry>,
    pub debug_packed: bool,
}

impl View for SMXHeader {
    type V = HeaderModel;

    open spec fn view(&self) -> HeaderModel {
        HeaderModel {
            magic: self.magic,
            version: self.version,
            compression_type: self.compression_type,
            disk_size: self.disk_size,
            image_size: self.image_size,
            section_count: self.section_count,
            string_table_offset: self.string_table_offset,
            data_offset: self.data_offset,
            data: self.data@,
            sections: section_models(self.sections@),
            debug_packed: self.debug_packed,
        }
    }
}

/// The model of a loading result.
pub open spec fn loaded(r: Result<SMXHeader, Error>) -> Result<HeaderModel, Error> {
    match r {
        Ok(h) => Ok(h@),
        Err(e) => Err(e),
    }
}

impl HeaderModel {
    /// What holds of every loaded header: the magic number matches, sizes and
    /// offsets reach past the fixed header, and the directory has
    /// `section_count` entries, each valid.
    pub open spec fn valid(self) -> bool {
        &&& self.magic == FILE_MAGIC
        &&& self.disk_size >= HEADER_SIZE
        &&& self.image_size >= HEADER_SIZE
        &&& self.string_table_offset >= HEADER_SIZE
        &&& self.data_offset >= HEADER_SIZE
        &&& self.sections.len() == self.section_count
        &&& forall|k: int| 0 <= k < self.sections.len() ==> (#[trigger] self.sections[k]).valid()
    }
}

/// A directory that was read has `count` valid entries.
pub proof fn lemma_directory_valid(image: Seq<u8>, table: int, count: nat)
    requires
        directory(image, table, count) is Ok,
    ensures
        directory(image, table, count)->Ok_0.len() == count,
        forall|k: int|
            0 <= k < count ==> (#[trigger] directory(image, table, count)->Ok_0[k]).valid(),
{
    let entry = section_of(image, table);
    lemma_collect_ok(entry, count);
    assert forall|k: int| 0 <= k < count implies (#[trigger] directory(
        image,
        table,
        count,
    )->Ok_0[k]).valid() by {
        assert(entry(k) == section_at(image, table, k));
    }
}

impl SMXHeader {
    pub const SP1_VERSION_1_0: u16 = 0x0101;

    pub const SP1_VERSION_1_1: u16 = 0x0102;

    pub const SP1_VERSION_MIN: u16 = 0x0101;

    pub const SP1_VERSION_MAX: u16 = 0x0102;

    /// Reads and validates the fixed header at the start of `data`.
    pub fn read_fixed(data: &[u8]) -> (r: Result<FixedHeader, Error>)
        ensures
            r == fixed_header(data@),
    {
        let mut rd = ByteReader::new(data);
        let magic = rd.read_u32()?;
        if magic != FILE_MAGIC {
            return Err(Error::InvalidMagic);
        }
        let version = rd.read_u16()?;
        let compression_type = CompressionType::from(rd.read_u8()?);
        let disk_size = rd.read_i32()?;
        if disk_size < HEADER_SIZE {
            return Err(Error::InvalidSize);
        }
        let image_size = rd.read_i32()?;
        if image_size < HEADER_SIZE {
            return Err(Error::InvalidSize);
        }
        let section_count = rd.read_u8()?;
        let string_table_offset = rd.read_i32()?;
        if string_table_offset < HEADER_SIZE {
            return Err(Error::InvalidOffset);
        }
        let data_offset = rd.read_i32()?;
        if data_offset < HEADER_SIZE {
            return Err(Error::InvalidOffset);
        }
        Ok(
            FixedHeader {
                version,
                compression_type,
                disk_size,
                image_size,
                section_count,
                string_table_offset,
                data_offset,
            },
        )
    }

    /// Reads entry `k` of the directory of `image`.
    fn read_section(image: &[u8], table: i32, k: u8) -> (r: Result<SectionEntry, Error>)
        requires
            table >= HEADER_SIZE,
        ensures
            match r {
                Ok(s) => section_at(image@, table as int, k as int) == Ok::<SectionModel, Error>(
                    s@,
                ),
                Err(e) => section_at(image@, table as int, k as int) == Err::<SectionModel, Error>(
                    e,
                ),
            },
    {
        let mut rd = ByteReader::at(image, 24 + 12 * (k as usize));
        let name_offset = rd.read_i32()?;
        if name_offset < 0 {
            return Err(Error::OffsetOverflow);
        }
        let data_offset = rd.read_i32()?;
        if data_offset < HEADER_SIZE {
            return Err(Error::OffsetOverflow);
        }
        let size = rd.read_i32()?;
        if size < 0 {
            return Err(Error::SizeOverflow);
        }
        let len = image.len();
        let start = table as usize + name_offset as usize;
        if start > len {
            return Err(Error::Io(IoError::UnexpectedEof));
        }
        let end = find_nul(image, start, len);
        if end >= len {
            return Err(Error::Io(IoError::UnexpectedEof));
        }
        let name = lossy_string(&image[start..end]);
        Ok(SectionEntry { name_offset, data_offset, size, name })
    }

    /// Builds the header with fixed part `fixed` over the expanded image
    /// `image`, reading the section directory from it.
    pub fn from_image(fixed: FixedHeader, image: Vec<u8>) -> (r: Result<SMXHeader, Error>)
        requires
            fixed.string_table_offset >= HEADER_SIZE,
        ensures
            loaded(r) == assemble(fixed, image@),
    {
        let mut sections: Vec<SectionEntry> = Vec::new();
        let mut found_dbg_section = false;
        let marker = String::from_str(".dbg.natives");
        let ghost table = fixed.string_table_offset as int;
        let mut k: u8 = 0;
        assert(section_models(sections@) =~= Seq::empty());
        while k < fixed.section_count
            invariant
                k <= fixed.section_count,
                sections@.len() == k,
                fixed.string_table_offset >= HEADER_SIZE,
                table == fixed.string_table_offset,
                marker@ == ".dbg.natives"@,
                directory(image@, table, k as nat) == Ok::<Seq<SectionModel>, Error>(
                    section_models(sections@),
                ),
                found_dbg_section == has_section_named(section_models(sections@), marker@),
            decreases fixed.section_count - k,
        {
            let ghost before = section_models(sections@);
            match Self::read_section(image.as_slice(), fixed.string_table_offset, k) {
                Err(e) => {
                    proof {
                        lemma_collect_fails(
                            section_of(image@, table),
                            k as nat,
                            fixed.section_count as nat,
                        );
                    }
                    return Err(e);
                },
                Ok(section) => {
                    if section.name == marker {
                        found_dbg_section = true;
                    }
                    sections.push(section);
                },
            }
            proof {
                let after = section_models(sections@);
                assert(after =~= before.push(sections@[k as int]@));
                if has_section_named(before, marker@) {
                    let j = choose|j: int| 0 <= j < before.len() && before[j].name == marker@;
                    assert(after[j].name == marker@);
                }
                if has_section_named(after, marker@) && !has_section_named(before, marker@) {
                    let j = choose|j: int| 0 <= j < after.len() && after[j].name == marker@;
                    assert(j < before.len() ==> before[j].name == marker@);
                }
                if sections@[k as int].name@ == marker@ {
                    assert(after[k as int].name == marker@);
                }
            }
            k = k + 1;
        }
        Ok(
            SMXHeader {
                magic: FILE_MAGIC,
                version: fixed.version,
                compression_type: fixed.compression_type,
                disk_size: fixed.disk_size,
                image_size: fixed.image_size,
                section_count: fixed.section_count,
                string_table_offset: fixed.string_table_offset,
                data_offset: fixed.data_offset,
                data: image,
                sections,
                debug_packed: fixed.version == SMXHeader::SP1_VERSION_1_0 && !found_dbg_section,
            },
        )
    }

    /// Loads a container from `data`: validates the fixed header, expands the
    /// compressed tail, and reads the section directory from the image.
    pub fn new(data: &[u8]) -> (r: Result<SMXHeader, Error>)
        ensures
            loaded(r) == load(data@, zlib_inflated(compressed_tail(data@))),
            r matches Ok(h) ==> h@.valid(),
            data@.len() >= 4 && u32_at(data@, 0) != FILE_MAGIC ==> r matches Err(
                Error::InvalidMagic,
            ),
            refused_size(data@) ==> r matches Err(Error::InvalidSize),
            refused_offset(data@) ==> r matches Err(Error::InvalidOffset),
            r matches Ok(h) ==> (h.compression_type is CompressionNone ==> h.data@.len()
                == h.image_size && h.data@ == data@.subrange(0, h.image_size as int)),
            r matches Ok(h) ==> (h.compression_type is CompressionGZ ==> zlib_inflated(
                compressed_tail(data@),
            ) is Some && h.data@.len() == h.data_offset + zlib_inflated(
                compressed_tail(data@),
            )->0.len() && h.data@ == data@.subrange(0, h.data_offset as int) + zlib_inflated(
                compressed_tail(data@),
            )->0),
            r matches Ok(h) ==> (h.debug_packed <==> h.version == SMXHeader::SP1_VERSION_1_0
                && !has_section_named(section_models(h.sections@), ".dbg.natives"@)),
    {
        let fixed = Self::read_fixed(data)?;
        let image = match fixed.compression_type {
            CompressionType::CompressionNone => {
                if fixed.image_size as usize > data.len() {
                    return Err(Error::Io(IoError::UnexpectedEof));
                }
                slice_to_vec(&data[0..fixed.image_size as usize])
            },
            CompressionType::CompressionGZ => {
                if fixed.data_offset as usize > data.len() {
                    return Err(Error::Io(IoError::UnexpectedEof));
                }
                let mut image = slice_to_vec(&data[0..fixed.data_offset as usize]);
                match inflate(&data[fixed.data_offset as usize..data.len()]) {
                    Ok(mut tail) => {
                        image.append(&mut tail);
                    },
                    Err(_) => {
                        return Err(Error::Io(IoError::Inflate));
                    },
                }
                image
            },
        };
        let r = Self::from_image(fixed, image);
        proof {
            if r is Ok {
                lemma_directory_valid(
                    r->Ok_0.data@,
                    fixed.string_table_offset as int,
                    fixed.section_count as nat,
                );
            }
        }
        r
    }
}

} // verus!
