//! The rows and headers that the sections of a version 1 container hold.

use vstd::prelude::*;
use crate::bytes::{i32_at, u16_at, u32_at, ByteReader};
use crate::errors::{eof, Error};
use crate::headers::{SectionEntry};
use crate::rows::{collect, lemma_collect_fails};
use crate::sections::{name_at, SMXNameTable};

verus! {

#[derive(Debug, Clone, Copy, PartialEq, Eq)]
pub enum CodeV1Flags {
    Debug,
}

impl CodeV1Flags {
    pub fn value(&self) -> (r: u16)
        ensures
            r == 1,
    {
        match self {
            CodeV1Flags::Debug => 0x0000_0001,
        }
    }
}

/// The header of the `.code` section.
#[derive(Debug, Clone, Copy, PartialEq, Eq)]
pub struct CodeV1Header {
    /// Size of the code blob.
    pub code_size: i32,
    /// Size of a cell in bytes.
    pub cell_size: u8,
    /// Code version.
    pub code_version: u8,
    pub flags: u16,
    /// Offset within the code blob to the entry point function.
    pub main_offset: i32,
    /// Offset to the code blob.
    pub code_offset: i32,
    /// Feature set; read and reported as zero.
    pub features: i32,
}

/// The code header at the start of `d`. From code version 13 on a features
/// word follows the fixed part; it has to be there and is not kept.
pub open spec fn code_header(d: Seq<u8>) -> Result<CodeV1Header, Error> {
    if d.len() < 16 || (d[5] >= CodeV1Header::VERSION_FEATURES && d.len() < 20) {
        Err(eof())
    } else {
        Ok(
            CodeV1Header {
                code_size: i32_at(d, 0),
                cell_size: d[4],
                code_version: d[5],
                flags: u16_at(d, 6),
                main_offset: i32_at(d, 8),
                code_offset: i32_at(d, 12),
                features: 0,
            },
        )
    }
}

impl CodeV1Header {
    pub const SIZE: i32 = 16;

    pub const VERSION_JIT1: u8 = 9;

    pub const VERSION_JIT2: u8 = 10;

    /// The first code version whose header ends in a features word.
    pub const VERSION_FEATURES: u8 = 13;

    pub fn new(data: &[u8]) -> (r: Result<Self, Error>)
        ensures
            r == code_header(data@),
    {
        let mut rd = ByteReader::new(data);
        let code_size = rd.read_i32()?;
        let cell_size = rd.read_u8()?;
        let code_version = rd.read_u8()?;
        let flags = rd.read_u16()?;
        let main_offset = rd.read_i32()?;
        let code_offset = rd.read_i32()?;
        if code_version >= CodeV1Header::VERSION_FEATURES {
            let _ = rd.read_i32()?;
        }
        Ok(
            CodeV1Header {
                code_size,
                cell_size,
                code_version,
                flags,
                main_offset,
                code_offset,
                features: 0,
            },
        )
    }
}

/// The header of the `.data` section.
#[derive(Debug, Clone, Copy, PartialEq, Eq)]
pub struct DataHeader {
    /// Size of the data blob.
    pub data_size: u32,
    /// Amount of memory the plugin runtime requires.
    pub memory_size: u32,
    /// Offset within this section to the data blob.
    pub data_offset: u32,
}

/// The data header at the start of `d`.
pub open spec fn data_header(d: Seq<u8>) -> Result<DataHeader, Error> {
    if d.len() < 12 {
        Err(eof())
    } else {
        Ok(
            DataHeader {
                data_size: u32_at(d, 0),
                memory_size: u32_at(d, 4),
                data_offset: u32_at(d, 8),
            },
        )
    }
}

impl DataHeader {
    pub const SIZE: i32 = 12;

    pub fn new(data: &[u8]) -> (r: Result<Self, Error>)
        ensures
            r == data_header(data@),
    {
        let mut rd = ByteReader::new(data);
        let data_size = rd.read_u32()?;
        let memory_size = rd.read_u32()?;
        let data_offset = rd.read_u32()?;
        Ok(DataHeader { data_size, memory_size, data_offset })
    }
}

/// A row of eight bytes that pairs a number with a name: the number, the
/// offset of the name in the name table, and the name found there.
pub struct NameRow {
    pub value: u32,
    pub name_offset: i32,
    pub name: Seq<char>,
}

/// Row `k` of a table of named rows in `data`, with names from `pool`.
pub open spec fn named_row(data: Seq<u8>, pool: Seq<u8>, k: int) -> Result<NameRow, Error> {
    if data.len() < 8 * k + 8 {
        Err(eof())
    } else {
        match name_at(pool, i32_at(data, 8 * k + 4) as int) {
            Err(e) => Err(e),
            Ok(name) => Ok(
                NameRow { value: u32_at(data, 8 * k), name_offset: i32_at(data, 8 * k + 4), name },
            ),
        }
    }
}

/// The rows of a table of named rows whose section is `size` bytes long and
/// holds `data`. The size has to be a multiple of the row size; the rows are
/// then read in order.
pub open spec fn named_rows(data: Seq<u8>, size: int, pool: Seq<u8>) -> Result<
    Seq<NameRow>,
    Error,
> {
    if size % 8 != 0 {
        Err(Error::InvalidSize)
    } else {
        collect(named_row_of(data, pool), (size / 8) as nat)
    }
}

/// `named_row` as a function of the row's number.
pub open spec fn named_row_of(data: Seq<u8>, pool: Seq<u8>) -> spec_fn(int) -> Result<
    NameRow,
    Error,
> {
    |k: int| named_row(data, pool, k)
}

/// An entry that is made from a named row.
pub trait NamedEntry: Sized {
    /// The row that the entry was made from.
    spec fn row(&self) -> NameRow;

    fn from_row(value: u32, name_offset: i32, name: String) -> (r: Self)
        ensures
            r.row() == (NameRow { value, name_offset, name: name@ }),
    ;
}

/// The rows that the entries of `v` were made from.
pub open spec fn rows_of<T: NamedEntry>(v: Seq<T>) -> Seq<NameRow> {
    v.map_values(|e: T| e.row())
}

/// Reads a table of named rows from `data`, the contents of `section`, and
/// looks each name up in `names`.
pub fn read_named_rows<T: NamedEntry>(
    data: &[u8],
    section: &SectionEntry,
    names: &mut SMXNameTable,
) -> (r: Result<Vec<T>, Error>)
    requires
        old(names).wf(),
        section.size >= 0,
    ensures
        final(names).wf(),
        final(names).pool() == old(names).pool(),
        final(names).section() == old(names).section(),
        match r {
            Ok(v) => named_rows(data@, section.size as int, old(names).pool()) == Ok::<
                Seq<NameRow>,
                Error,
            >(rows_of(v@)),
            Err(e) => named_rows(data@, section.size as int, old(names).pool()) == Err::<
                Seq<NameRow>,
                Error,
            >(e),
        },
        r matches Ok(v) ==> v@.len() == section.size / 8,
        section.size % 8 != 0 ==> r == Err::<Vec<T>, Error>(Error::InvalidSize),
{
    if section.size % 8 != 0 {
        return Err(Error::InvalidSize);
    }
    let count = section.size / 8;
    let ghost pool = names.pool();
    let ghost row = named_row_of(data@, pool);
    let mut entries: Vec<T> = Vec::new();
    let mut rd = ByteReader::new(data);
    let mut k: i32 = 0;
    assert(rows_of(entries@) =~= Seq::<NameRow>::empty());
    while k < count
        invariant
            0 <= k <= count,
            count == section.size / 8,
            names.wf(),
            names.pool() == pool,
            names.section() == old(names).section(),
            section.size >= 0,
            section.size % 8 == 0,
            pool == old(names).pool(),
            row == named_row_of(data@, pool),
            rd.data@ == data@,
            rd.pos == 8 * k,
            entries@.len() == k,
            collect(row, k as nat) == Ok::<Seq<NameRow>, Error>(rows_of(entries@)),
        decreases count - k,
    {
        let ghost before = rows_of(entries@);
        let value = match rd.read_u32() {
            Ok(v) => v,
            Err(e) => {
                proof {
                    lemma_collect_fails(row, k as nat, count as nat);
                }
                return Err(e);
            },
        };
        let name_offset = match rd.read_i32() {
            Ok(v) => v,
            Err(e) => {
                proof {
                    lemma_collect_fails(row, k as nat, count as nat);
                }
                return Err(e);
            },
        };
        let name = match names.string_at(name_offset) {
            Ok(v) => v,
            Err(e) => {
                proof {
                    lemma_collect_fails(row, k as nat, count as nat);
                }
                return Err(e);
            },
        };
        entries.push(T::from_row(value, name_offset, name));
        proof {
            assert(rows_of(entries@) =~= before.push(row(k as int)->Ok_0));
        }
        k = k + 1;
    }
    Ok(entries)
}

/// A row of the `.publics` section: a function that the plugin exports.
#[derive(Debug)]
pub struct PublicEntry {
    /// Offset into the code section.
    pub address: u32,
    /// Offset into the `.names` section.
    pub name_offset: i32,
    /// The name found there.
    pub name: String,
}

impl NamedEntry for PublicEntry {
    open spec fn row(&self) -> NameRow {
        NameRow { value: self.address, name_offset: self.name_offset, name: self.name@ }
    }

    fn from_row(value: u32, name_offset: i32, name: String) -> (r: Self) {
        PublicEntry { address: value, name_offset, name }
    }
}

impl Clone for PublicEntry {
    fn clone(&self) -> (r: Self)
        ensures
            r == *self,
    {
        PublicEntry {
            address: self.address,
            name_offset: self.name_offset,
            name: self.name.clone(),
        }
    }
}

impl PublicEntry {
    pub const SIZE: i32 = 8;

    /// Reads the rows of a `.publics` section.
    pub fn new(data: &[u8], section: &SectionEntry, names: &mut SMXNameTable) -> (r: Result<
        Vec<Self>,
        Error,
    >)
        requires
            old(names).wf(),
            section.size >= 0,
        ensures
            final(names).wf(),
            final(names).pool() == old(names).pool(),
            final(names).section() == old(names).section(),
            match r {
                Ok(v) => named_rows(data@, section.size as int, old(names).pool()) == Ok::<
                    Seq<NameRow>,
                    Error,
                >(rows_of(v@)),
                Err(e) => named_rows(data@, section.size as int, old(names).pool()) == Err::<
                    Seq<NameRow>,
                    Error,
                >(e),
            },
            r matches Ok(v) ==> v@.len() == section.size / Self::SIZE,
            section.size % Self::SIZE != 0 ==> r == Err::<Vec<Self>, Error>(Error::InvalidSize),
    {
        read_named_rows::<PublicEntry>(data, section, names)
    }
}

/// A function that a call instruction was found to enter, with the name that
/// was made up for it.
#[derive(Debug)]
pub struct CalledFunctionEntry {
    pub address: u32,
    pub name: String,
}

impl Clone for CalledFunctionEntry {
    fn clone(&self) -> (r: Self)
        ensures
            r == *self,
    {
        CalledFunctionEntry { address: self.address, name: self.name.clone() }
    }
}

/// A row of the `.pubvars` section: a variable that the plugin exports.
#[derive(Debug)]
pub struct PubvarEntry {
    /// Offset into the data section.
    pub address: u32,
    /// Offset into the `.names` section.
    pub name_offset: i32,
    /// The name found there.
    pub name: String,
}

impl NamedEntry for PubvarEntry {
    open spec fn row(&self) -> NameRow {
        NameRow { value: self.address, name_offset: self.name_offset, name: self.name@ }
    }

    fn from_row(value: u32, name_offset: i32, name: String) -> (r: Self) {
        PubvarEntry { address: value, name_offset, name }
    }
}

impl Clone for PubvarEntry {
    fn clone(&self) -> (r: Self)
        ensures
            r == *self,
    {
        PubvarEntry {
            address: self.address,
            name_offset: self.name_offset,
            name: self.name.clone(),
        }
    }
}

impl PubvarEntry {
    pub const SIZE: i32 = 8;

    /// Reads the rows of a `.pubvars` section.
    pub fn new(data: &[u8], section: &SectionEntry, names: &mut SMXNameTable) -> (r: Result<
        Vec<Self>,
        Error,
    >)
        requires
            old(names).wf(),
            section.size >= 0,
        ensures
            final(names).wf(),
            final(names).pool() == old(names).pool(),
            final(names).section() == old(names).section(),
            match r {
                Ok(v) => named_rows(data@, section.size as int, old(names).pool()) == Ok::<
                    Seq<NameRow>,
                    Error,
                >(rows_of(v@)),
                Err(e) => named_rows(data@, section.size as int, old(names).pool()) == Err::<
                    Seq<NameRow>,
                    Error,
                >(e),
            },
            r matches Ok(v) ==> v@.len() == section.size / Self::SIZE,
            section.size % Self::SIZE != 0 ==> r == Err::<Vec<Self>, Error>(Error::InvalidSize),
    {
        read_named_rows::<PubvarEntry>(data, section, names)
    }
}

/// A row of the `.tags` section.
#[derive(Debug)]
pub struct TagEntry {
    /// Tag id from the compiler, with its flag bits.
    pub tag: u32,
    /// Offset into the `.names` section.
    pub name_offset: i32,
    /// The name found there.
    pub name: String,
}

impl NamedEntry for TagEntry {
    open spec fn row(&self) -> NameRow {
        NameRow { value: self.tag, name_offset: self.name_offset, name: self.name@ }
    }

    fn from_row(value: u32, name_offset: i32, name: String) -> (r: Self) {
        TagEntry { tag: value, name_offset, name }
    }
}

impl Clone for TagEntry {
    fn clone(&self) -> (r: Self)
        ensures
            r == *self,
    {
        TagEntry { tag: self.tag, name_offset: self.name_offset, name: self.name.clone() }
    }
}

impl TagEntry {
    pub const SIZE: i32 = 8;

    // The flag bits that a tag id can carry.
    pub const FIXED: u32 = 0x40000000;

    pub const FUNC: u32 = 0x20000000;

    pub const OBJECT: u32 = 0x10000000;

    pub const ENUM: u32 = 0x08000000;

    pub const METHODMAP: u32 = 0x04000000;

    pub const STRUCT: u32 = 0x02000000;

    /// All flag bits together.
    pub const FLAGMASK: u32 = 0x7E000000;

    /// The flag mask is the union of the six flags.
    pub proof fn lemma_flagmask()
        ensures
            Self::FLAGMASK == Self::FIXED | Self::FUNC | Self::OBJECT | Self::ENUM
                | Self::METHODMAP | Self::STRUCT,
    {
        assert(0x7E000000u32 == 0x40000000u32 | 0x20000000u32 | 0x10000000u32 | 0x08000000u32
            | 0x04000000u32 | 0x02000000u32) by (bit_vector);
    }

    /// Reads the rows of a `.tags` section.
    pub fn new(data: &[u8], section: &SectionEntry, names: &mut SMXNameTable) -> (r: Result<
        Vec<Self>,
        Error,
    >)
        requires
            old(names).wf(),
            section.size >= 0,
        ensures
            final(names).wf(),
            final(names).pool() == old(names).pool(),
            final(names).section() == old(names).section(),
            match r {
                Ok(v) => named_rows(data@, section.size as int, old(names).pool()) == Ok::<
                    Seq<NameRow>,
                    Error,
                >(rows_of(v@)),
                Err(e) => named_rows(data@, section.size as int, old(names).pool()) == Err::<
                    Seq<NameRow>,
                    Error,
                >(e),
            },
            r matches Ok(v) ==> v@.len() == section.size / Self::SIZE,
            section.size % Self::SIZE != 0 ==> r == Err::<Vec<Self>, Error>(Error::InvalidSize),
    {
        read_named_rows::<TagEntry>(data, section, names)
    }
}

/// A row of the `.dbg.files` section: the address at which the code of a
/// source file starts.
#[derive(Debug)]
pub struct DebugFileEntry {
    /// Offset into the code section.
    pub address: u32,
    /// Offset into the `.names` section.
    pub name_offset: i32,
    /// The name found there.
    pub name: String,
}

impl NamedEntry for DebugFileEntry {
    open spec fn row(&self) -> NameRow {
        NameRow { value: self.address, name_offset: self.name_offset, name: self.name@ }
    }

    fn from_row(value: u32, name_offset: i32, name: String) -> (r: Self) {
        DebugFileEntry { address: value, name_offset, name }
    }
}

impl Clone for DebugFileEntry {
    fn clone(&self) -> (r: Self)
        ensures
            r == *self,
    {
        DebugFileEntry {
            address: self.address,
            name_offset: self.name_offset,
            name: self.name.clone(),
        }
    }
}

impl DebugFileEntry {
    pub const SIZE: i32 = 8;

    /// Reads the rows of a `.dbg.files` section.
    pub fn new(data: &[u8], section: &SectionEntry, names: &mut SMXNameTable) -> (r: Result<
        Vec<Self>,
        Error,
    >)
        requires
            old(names).wf(),
            section.size >= 0,
        ensures
            final(names).wf(),
            final(names).pool() == old(names).pool(),
            final(names).section() == old(names).section(),
            match r {
                Ok(v) => named_rows(data@, section.size as int, old(names).pool()) == Ok::<
                    Seq<NameRow>,
                    Error,
                >(rows_of(v@)),
                Err(e) => named_rows(data@, section.size as int, old(names).pool()) == Err::<
                    Seq<NameRow>,
                    Error,
                >(e),
            },
            r matches Ok(v) ==> v@.len() == section.size / Self::SIZE,
            section.size % Self::SIZE != 0 ==> r == Err::<Vec<Self>, Error>(Error::InvalidSize),
    {
        read_named_rows::<DebugFileEntry>(data, section, names)
    }
}

/// A row of the `.natives` section: a function that the host provides.
#[derive(Debug)]
pub struct NativeEntry {
    /// Offset into the `.names` section.
    pub name_offset: i32,
    /// The name found there.
    pub name: String,
}

/// A native entry with its name as text.
pub struct NativeRow {
    pub name_offset: i32,
    pub name: Seq<char>,
}

impl View for NativeEntry {
    type V = NativeRow;

    open spec fn view(&self) -> NativeRow {
        NativeRow { name_offset: self.name_offset, name: self.name@ }
    }
}

impl Clone for NativeEntry {
    fn clone(&self) -> (r: Self)
        ensures
            r == *self,
    {
        NativeEntry { name_offset: self.name_offset, name: self.name.clone() }
    }
}

/// Row `k` of a `.natives` section that holds `data`, with names from `pool`.
pub open spec fn native_row(data: Seq<u8>, pool: Seq<u8>, k: int) -> Result<NativeRow, Error> {
    if data.len() < 4 * k + 4 {
        Err(eof())
    } else {
        match name_at(pool, i32_at(data, 4 * k) as int) {
            Err(e) => Err(e),
            Ok(name) => Ok(NativeRow { name_offset: i32_at(data, 4 * k), name }),
        }
    }
}

/// The rows of a `.natives` section that is `size` bytes long and holds
/// `data`.
pub open spec fn native_rows(data: Seq<u8>, size: int, pool: Seq<u8>) -> Result<
    Seq<NativeRow>,
    Error,
> {
    if size % 4 != 0 {
        Err(Error::InvalidSize)
    } else {
        collect(native_row_of(data, pool), (size / 4) as nat)
    }
}

/// `native_row` as a function of the row's number.
pub open spec fn native_row_of(data: Seq<u8>, pool: Seq<u8>) -> spec_fn(int) -> Result<
    NativeRow,
    Error,
> {
    |k: int| native_row(data, pool, k)
}

/// The rows that the entries of `v` stand for.
pub open spec fn native_models(v: Seq<NativeEntry>) -> Seq<NativeRow> {
    v.map_values(|e: NativeEntry| e@)
}

impl NativeEntry {
    pub const SIZE: i32 = 4;

    /// Reads the rows of a `.natives` section.
    pub fn new(data: &[u8], section: &SectionEntry, names: &mut SMXNameTable) -> (r: Result<
        Vec<Self>,
        Error,
    >)
        requires
            old(names).wf(),
            section.size >= 0,
        ensures
            final(names).wf(),
            final(names).pool() == old(names).pool(),
            final(names).section() == old(names).section(),
            match r {
                Ok(v) => native_rows(data@, section.size as int, old(names).pool()) == Ok::<
                    Seq<NativeRow>,
                    Error,
                >(native_models(v@)),
                Err(e) => native_rows(data@, section.size as int, old(names).pool()) == Err::<
                    Seq<NativeRow>,
                    Error,
                >(e),
            },
            r matches Ok(v) ==> v@.len() == section.size / Self::SIZE,
            section.size % Self::SIZE != 0 ==> r == Err::<Vec<Self>, Error>(Error::InvalidSize),
    {
        if section.size % NativeEntry::SIZE != 0 {
            return Err(Error::InvalidSize);
        }
        let count = section.size / NativeEntry::SIZE;
        let ghost pool = names.pool();
        let ghost row = native_row_of(data@, pool);
        let mut entries: Vec<NativeEntry> = Vec::new();
        let mut rd = ByteReader::new(data);
        let mut k: i32 = 0;
        assert(native_models(entries@) =~= Seq::<NativeRow>::empty());
        while k < count
            invariant
                0 <= k <= count,
                count == section.size / 4,
                names.wf(),
                names.pool() == pool,
                names.section() == old(names).section(),
                section.size >= 0,
                section.size % 4 == 0,
                pool == old(names).pool(),
                row == native_row_of(data@, pool),
                rd.data@ == data@,
                rd.pos == 4 * k,
                entries@.len() == k,
                collect(row, k as nat) == Ok::<Seq<NativeRow>, Error>(native_models(entries@)),
            decreases count - k,
        {
            let ghost before = native_models(entries@);
            let name_offset = match rd.read_i32() {
                Ok(v) => v,
                Err(e) => {
                    proof {
                        lemma_collect_fails(row, k as nat, count as nat);
                    }
                    return Err(e);
                },
            };
            let name = match names.string_at(name_offset) {
                Ok(v) => v,
                Err(e) => {
                    proof {
                        lemma_collect_fails(row, k as nat, count as nat);
                    }
                    return Err(e);
                },
            };
            entries.push(NativeEntry { name_offset, name });
            proof {
                assert(native_models(entries@) =~= before.push(row(k as int)->Ok_0));
            }
            k = k + 1;
        }
        Ok(entries)
    }
}

/// The header of the `.dbg.info` section.
#[derive(Debug, Clone, Copy, PartialEq, Eq)]
pub struct DebugInfoHeader {
    pub file_count: i32,
    pub line_count: i32,
    pub symbol_count: i32,
    pub array_count: i32,
}

/// The debug information header at the start of `d`.
pub open spec fn debug_info_header(d: Seq<u8>) -> Result<DebugInfoHeader, Error> {
    if d.len() < 16 {
        Err(eof())
    } else {
        Ok(
            DebugInfoHeader {
                file_count: i32_at(d, 0),
                line_count: i32_at(d, 4),
                symbol_count: i32_at(d, 8),
                array_count: i32_at(d, 12),
            },
        )
    }
}

impl DebugInfoHeader {
    pub fn new(data: &[u8]) -> (r: Result<Self, Error>)
        ensures
            r == debug_info_header(data@),
    {
        let mut rd = ByteReader::new(data);
        let file_count = rd.read_i32()?;
        let line_count = rd.read_i32()?;
        let symbol_count = rd.read_i32()?;
        let array_count = rd.read_i32()?;
        Ok(DebugInfoHeader { file_count, line_count, symbol_count, array_count })
    }
}

/// A row of the `.dbg.lines` section: the address at which the code of a
/// source line starts.
#[derive(Debug, Clone, Copy, PartialEq, Eq)]
pub struct DebugLineEntry {
    /// Offset into the code section.
    pub address: u32,
    /// Line number, counted from zero.
    pub line: u32,
}

/// Row `k` of a `.dbg.lines` section that holds `data`.
pub open spec fn line_row(data: Seq<u8>, k: int) -> Result<DebugLineEntry, Error> {
    if data.len() < 8 * k + 8 {
        Err(eof())
    } else {
        Ok(DebugLineEntry { address: u32_at(data, 8 * k), line: u32_at(data, 8 * k + 4) })
    }
}

/// The rows of a `.dbg.lines` section that is `size` bytes long and holds
/// `data`.
pub open spec fn line_rows(data: Seq<u8>, size: int) -> Result<Seq<DebugLineEntry>, Error> {
    if size % 8 != 0 {
        Err(Error::InvalidSize)
    } else {
        collect(line_row_of(data), (size / 8) as nat)
    }
}

/// `line_row` as a function of the row's number.
pub open spec fn line_row_of(data: Seq<u8>) -> spec_fn(int) -> Result<DebugLineEntry, Error> {
    |k: int| line_row(data, k)
}

impl DebugLineEntry {
    pub const SIZE: i32 = 8;

    /// Reads the rows of a `.dbg.lines` section.
    pub fn new(data: &[u8], section: &SectionEntry) -> (r: Result<Vec<Self>, Error>)
        requires
            section.size >= 0,
        ensures
            match r {
                Ok(v) => line_rows(data@, section.size as int) == Ok::<
                    Seq<DebugLineEntry>,
                    Error,
                >(v@),
                Err(e) => line_rows(data@, section.size as int) == Err::<
                    Seq<DebugLineEntry>,
                    Error,
                >(e),
            },
            r matches Ok(v) ==> v@.len() == section.size / Self::SIZE,
            section.size % Self::SIZE != 0 ==> r == Err::<Vec<Self>, Error>(Error::InvalidSize),
    {
        if section.size % DebugLineEntry::SIZE != 0 {
            return Err(Error::InvalidSize);
        }
        let count = section.size / DebugLineEntry::SIZE;
        let ghost row = line_row_of(data@);
        let mut entries: Vec<DebugLineEntry> = Vec::new();
        let mut rd = ByteReader::new(data);
        let mut k: i32 = 0;
        while k < count
            invariant
                0 <= k <= count,
                count == section.size / 8,
                section.size >= 0,
                section.size % 8 == 0,
                row == line_row_of(data@),
                rd.data@ == data@,
                rd.pos == 8 * k,
                entries@.len() == k,
                collect(row, k as nat) == Ok::<Seq<DebugLineEntry>, Error>(entries@),
            decreases count - k,
        {
            let address = match rd.read_u32() {
                Ok(v) => v,
                Err(e) => {
                    proof {
                        lemma_collect_fails(row, k as nat, count as nat);
                    }
                    return Err(e);
                },
            };
            let line = match rd.read_u32() {
                Ok(v) => v,
                Err(e) => {
                    proof {
                        lemma_collect_fails(row, k as nat, count as nat);
                    }
                    return Err(e);
                },
            };
            entries.push(DebugLineEntry { address, line });
            k = k + 1;
        }
        Ok(entries)
    }
}

/// Where a debug symbol lives.
#[derive(Debug, Clone, Copy, PartialEq, Eq)]
pub enum SymbolScope {
    Global,
    Local,
    Static,
    Arg,
    Unknown,
}

impl SymbolScope {
    /// The scope that the byte `s` of a symbol row selects.
    pub open spec fn of(s: u8) -> SymbolScope {
        if s == 0 {
            SymbolScope::Global
        } else if s == 1 {
            SymbolScope::Local
        } else if s == 2 {
            SymbolScope::Static
        } else if s == 3 {
            SymbolScope::Arg
        } else {
            SymbolScope::Unknown
        }
    }

    pub open spec fn spec_label(self) -> Seq<char> {
        match self {
            SymbolScope::Global => "Global"@,
            SymbolScope::Local => "Local"@,
            SymbolScope::Static => "Static"@,
            SymbolScope::Arg => "Arg"@,
            SymbolScope::Unknown => "Unknown"@,
        }
    }

    /// The scope that the byte `s` of a symbol row selects.
    pub fn decode(s: u8) -> (r: Self)
        ensures
            r == Self::of(s),
    {
        if s == 0 {
            SymbolScope::Global
        } else if s == 1 {
            SymbolScope::Local
        } else if s == 2 {
            SymbolScope::Static
        } else if s == 3 {
            SymbolScope::Arg
        } else {
            SymbolScope::Unknown
        }
    }

    /// The name under which the scope is shown.
    pub fn label(&self) -> (s: &'static str)
        ensures
            s@ == self.spec_label(),
    {
        match self {
            SymbolScope::Global => "Global",
            SymbolScope::Local => "Local",
            SymbolScope::Static => "Static",
            SymbolScope::Arg => "Arg",
            SymbolScope::Unknown => "Unknown",
        }
    }
}

impl vstd::std_specs::convert::FromSpecImpl<u8> for SymbolScope {
    open spec fn obeys_from_spec() -> bool {
        true
    }

    open spec fn from_spec(s: u8) -> Self {
        SymbolScope::of(s)
    }
}

impl From<u8> for SymbolScope {
    fn from(s: u8) -> (r: Self) {
        SymbolScope::decode(s)
    }
}

/// A row of the `.dbg.methods` section.
#[derive(Debug, Clone, Copy, PartialEq, Eq)]
pub struct DebugMethodEntry {
    pub method_index: i32,
    pub first_local: i32,
}

/// The method row at `at` of `d`.
pub open spec fn method_entry(d: Seq<u8>, at: int) -> Result<DebugMethodEntry, Error> {
    if d.len() < at + 8 {
        Err(eof())
    } else {
        Ok(DebugMethodEntry { method_index: i32_at(d, at), first_local: i32_at(d, at + 4) })
    }
}

impl DebugMethodEntry {
    pub const SIZE: i32 = 8;

    pub fn new(data: &[u8]) -> (r: Result<Self, Error>)
        ensures
            r == method_entry(data@, 0),
    {
        let mut rd = ByteReader::new(data);
        Self::read(&mut rd)
    }

    /// Reads one row at the position of `rd`.
    pub fn read(rd: &mut ByteReader) -> (r: Result<Self, Error>)
        ensures
            final(rd).data@ == old(rd).data@,
            r == method_entry(old(rd).data@, old(rd).pos as int),
            r is Ok ==> final(rd).pos == old(rd).pos + 8,
    {
        let method_index = rd.read_i32()?;
        let first_local = rd.read_i32()?;
        Ok(DebugMethodEntry { method_index, first_local })
    }
}

/// A row of the `.dbg.globals` and `.dbg.locals` sections: a variable, where
/// it lives, and the range of code in which it is in scope.
#[derive(Debug, Clone, Copy, PartialEq, Eq)]
pub struct DebugVarEntry {
    pub address: i32,
    pub scope: SymbolScope,
    pub name_offset: i32,
    pub code_start: i32,
    pub code_end: i32,
    pub type_id: i32,
}

/// The variable row at `at` of `d`.
pub open spec fn var_entry(d: Seq<u8>, at: int) -> Result<DebugVarEntry, Error> {
    if d.len() < at + 21 {
        Err(eof())
    } else {
        Ok(
            DebugVarEntry {
                address: i32_at(d, at),
                scope: SymbolScope::of(d[at + 4]),
                name_offset: i32_at(d, at + 5),
                code_start: i32_at(d, at + 9),
                code_end: i32_at(d, at + 13),
                type_id: i32_at(d, at + 17),
            },
        )
    }
}

impl DebugVarEntry {
    pub const SIZE: i32 = 21;

    pub fn new(data: &[u8]) -> (r: Result<Self, Error>)
        ensures
            r == var_entry(data@, 0),
    {
        let mut rd = ByteReader::new(data);
        Self::read(&mut rd)
    }

    /// Reads one row at the position of `rd`.
    pub fn read(rd: &mut ByteReader) -> (r: Result<Self, Error>)
        ensures
            final(rd).data@ == old(rd).data@,
            r == var_entry(old(rd).data@, old(rd).pos as int),
            r is Ok ==> final(rd).pos == old(rd).pos + 21,
    {
        let address = rd.read_i32()?;
        let scope = SymbolScope::decode(rd.read_u8()?);
        let name_offset = rd.read_i32()?;
        let code_start = rd.read_i32()?;
        let code_end = rd.read_i32()?;
        let type_id = rd.read_i32()?;
        Ok(DebugVarEntry { address, scope, name_offset, code_start, code_end, type_id })
    }
}

} // verus!
