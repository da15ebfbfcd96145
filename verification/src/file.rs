//! A whole container: its header, one table for each section that is
//! known by name, and the functions that disassembly found.

use vstd::prelude::*;
use vstd::string::StringExecFns;
use std::rc::Rc;
use crate::debuginfo::{
    first_at, last_local, plain_rows, SMXDebugGlobals, SMXDebugLocals, SMXDebugMethods,
};
use crate::errors::{eof, Error, IoError};
use crate::headers::{compressed_tail, load, section_models, zlib_inflated, HeaderModel, SMXHeader, SectionEntry, SectionModel};
use crate::rtti::{
    row_views, table_rows, texts, RTTIClassDef, RTTIClassDefModel, RTTIEnum, RTTIEnumStruct,
    RTTIEnumStructField, RTTIEnumStructFieldModel, RTTIEnumStructModel, RTTIField,
    RTTIFieldModel, RTTIMethod, RTTIMethodModel, RTTINative, RTTINativeModel, RTTITypedef,
    RTTITypedefModel, RTTITypeset, RTTITypesetModel, SMXRTTIClassDefTable,
    SMXRTTIEnumStructFieldTable, SMXRTTIEnumStructTable, SMXRTTIEnumTable, SMXRTTIFieldTable,
    SMXRTTIMethodTable, SMXRTTINativeTable, SMXRTTITypedefTable, SMXRTTITypesetTable,
};
use crate::sections::{
    name_at, section_bytes, share, tag_rows, SMXCalledFunctionsTable, SMXCodeV1Section,
    SMXDataSection, SMXDebugFilesTable, SMXDebugInfoSection, SMXDebugLinesTable, SMXNameTable,
    SMXNativeTable, SMXPublicTable, SMXPubvarTable, SMXTagTable,
};
use crate::bytes::{as_signed, as_unsigned, signed32, unsigned32};
use crate::typetext::{SMXRTTIData, TypeNames};
use crate::v1disassembler::{
    called_addresses, is_known, known_function, named_by_address, procedure, public_addresses,
    with_calls, InstructionModel, V1Disassembler,
};
use crate::v1types::{
    code_header, data_header, debug_info_header, line_rows, named_rows, native_models,
    native_rows, rows_of, CodeV1Header, DataHeader, DebugInfoHeader, DebugLineEntry,
    DebugMethodEntry, DebugVarEntry, NameRow, NativeRow,
};

verus! {

/// A loaded container.
#[derive(Debug)]
pub struct SMXFile {
    pub header: Rc<SMXHeader>,
    /// The sections whose names say nothing to this library, in the order
    /// of the directory.
    pub unknown_sections: Vec<SectionEntry>,
    pub names: Option<SMXNameTable>,
    /// The names that the debug tables refer to: `.dbg.strings`, or `.names`
    /// again where the container has no such section.
    pub debug_names: Option<SMXNameTable>,
    pub natives: Option<SMXNativeTable>,
    pub publics: Option<SMXPublicTable>,
    pub pubvars: Option<SMXPubvarTable>,
    pub tags: Option<SMXTagTable>,
    pub data: Option<SMXDataSection>,
    pub codev1: Option<SMXCodeV1Section>,
    /// The functions that call instructions enter and that are not public.
    pub called_functions: Option<SMXCalledFunctionsTable>,
    pub debug_info: Option<SMXDebugInfoSection>,
    pub debug_files: Option<SMXDebugFilesTable>,
    pub debug_lines: Option<SMXDebugLinesTable>,
    pub rtti_data: Option<SMXRTTIData>,
    pub rtti_enums: Option<SMXRTTIEnumTable>,
    pub rtti_enum_structs: Option<SMXRTTIEnumStructTable>,
    pub rtti_enum_struct_fields: Option<SMXRTTIEnumStructFieldTable>,
    pub rtti_classdefs: Option<SMXRTTIClassDefTable>,
    pub rtti_fields: Option<SMXRTTIFieldTable>,
    pub rtti_methods: Option<SMXRTTIMethodTable>,
    pub rtti_natives: Option<SMXRTTINativeTable>,
    pub rtti_typedefs: Option<SMXRTTITypedefTable>,
    pub rtti_typesets: Option<SMXRTTITypesetTable>,
    pub debug_methods: Option<SMXDebugMethods>,
    pub debug_globals: Option<SMXDebugGlobals>,
    pub debug_locals: Option<SMXDebugLocals>,
}

/// What a loaded container holds: the header, and for each table the rows
/// that were read, where the container has the section.
pub struct FileModel {
    pub header: HeaderModel,
    pub unknown_sections: Seq<SectionModel>,
    /// The section of the name table.
    pub names: Option<SectionModel>,
    /// The section of the name table of the debug tables.
    pub debug_names: Option<SectionModel>,
    pub natives: Option<Seq<NativeRow>>,
    pub publics: Option<Seq<NameRow>>,
    pub pubvars: Option<Seq<NameRow>>,
    pub tags: Option<Seq<NameRow>>,
    pub data: Option<(SectionModel, DataHeader)>,
    pub codev1: Option<(SectionModel, CodeV1Header)>,
    /// The addresses of the functions that were found, in the order in which
    /// they were found.
    pub called_functions: Option<Seq<u32>>,
    pub debug_info: Option<DebugInfoHeader>,
    pub debug_files: Option<Seq<NameRow>>,
    pub debug_lines: Option<Seq<DebugLineEntry>>,
    pub rtti_data: Option<Seq<u8>>,
    pub rtti_enums: Option<Seq<Seq<char>>>,
    pub rtti_enum_structs: Option<Seq<RTTIEnumStructModel>>,
    pub rtti_enum_struct_fields: Option<Seq<RTTIEnumStructFieldModel>>,
    pub rtti_classdefs: Option<Seq<RTTIClassDefModel>>,
    pub rtti_fields: Option<Seq<RTTIFieldModel>>,
    pub rtti_methods: Option<Seq<RTTIMethodModel>>,
    pub rtti_natives: Option<Seq<RTTINativeModel>>,
    pub rtti_typedefs: Option<Seq<RTTITypedefModel>>,
    pub rtti_typesets: Option<Seq<RTTITypesetModel>>,
    pub debug_methods: Option<Seq<DebugMethodEntry>>,
    pub debug_globals: Option<Seq<DebugVarEntry>>,
    pub debug_locals: Option<Seq<DebugVarEntry>>,
}

impl View for SMXFile {
    type V = FileModel;

    open spec fn view(&self) -> FileModel {
        self.model()
    }
}

impl SMXFile {
    /// What the container holds.
    #[verifier::opaque]
    pub open spec fn model(&self) -> FileModel {
        FileModel {
            header: self.header@,
            unknown_sections: section_models(self.unknown_sections@),
            names: match self.names {
                Some(t) => Some(t.section()),
                None => None,
            },
            debug_names: match self.debug_names {
                Some(t) => Some(t.section()),
                None => None,
            },
            natives: match self.natives {
                Some(t) => Some(native_models(t@)),
                None => None,
            },
            publics: match self.publics {
                Some(t) => Some(rows_of(t@)),
                None => None,
            },
            pubvars: match self.pubvars {
                Some(t) => Some(rows_of(t@)),
                None => None,
            },
            tags: match self.tags {
                Some(t) => Some(rows_of(tag_rows(t@))),
                None => None,
            },
            data: match self.data {
                Some(t) => Some((t.section(), t.spec_header())),
                None => None,
            },
            codev1: match self.codev1 {
                Some(t) => Some((t.section(), t.spec_header())),
                None => None,
            },
            called_functions: match self.called_functions {
                Some(t) => Some(called_addresses(t@)),
                None => None,
            },
            debug_info: match self.debug_info {
                Some(t) => Some(t@),
                None => None,
            },
            debug_files: match self.debug_files {
                Some(t) => Some(rows_of(t@)),
                None => None,
            },
            debug_lines: match self.debug_lines {
                Some(t) => Some(t@),
                None => None,
            },
            rtti_data: match self.rtti_data {
                Some(t) => Some(t@),
                None => None,
            },
            rtti_enums: match self.rtti_enums {
                Some(t) => Some(texts(t@)),
                None => None,
            },
            rtti_enum_structs: match self.rtti_enum_structs {
                Some(t) => Some(row_views(t@)),
                None => None,
            },
            rtti_enum_struct_fields: match self.rtti_enum_struct_fields {
                Some(t) => Some(row_views(t@)),
                None => None,
            },
            rtti_classdefs: match self.rtti_classdefs {
                Some(t) => Some(row_views(t@)),
                None => None,
            },
            rtti_fields: match self.rtti_fields {
                Some(t) => Some(row_views(t@)),
                None => None,
            },
            rtti_methods: match self.rtti_methods {
                Some(t) => Some(row_views(t@)),
                None => None,
            },
            rtti_natives: match self.rtti_natives {
                Some(t) => Some(row_views(t@)),
                None => None,
            },
            rtti_typedefs: match self.rtti_typedefs {
                Some(t) => Some(row_views(t@)),
                None => None,
            },
            rtti_typesets: match self.rtti_typesets {
                Some(t) => Some(row_views(t@)),
                None => None,
            },
            debug_methods: match self.debug_methods {
                Some(t) => Some(t@),
                None => None,
            },
            debug_globals: match self.debug_globals {
                Some(t) => Some(t@),
                None => None,
            },
            debug_locals: match self.debug_locals {
                Some(t) => Some(t@),
                None => None,
            },
        }
    }
}

/// A container with header `header` of which no section has been read.
pub open spec fn unread(header: HeaderModel) -> FileModel {
    FileModel {
        header,
        unknown_sections: Seq::empty(),
        names: None,
        debug_names: None,
        natives: None,
        publics: None,
        pubvars: None,
        tags: None,
        data: None,
        codev1: None,
        called_functions: Some(Seq::empty()),
        debug_info: None,
        debug_files: None,
        debug_lines: None,
        rtti_data: None,
        rtti_enums: None,
        rtti_enum_structs: None,
        rtti_enum_struct_fields: None,
        rtti_classdefs: None,
        rtti_fields: None,
        rtti_methods: None,
        rtti_natives: None,
        rtti_typedefs: None,
        rtti_typesets: None,
        debug_methods: None,
        debug_globals: None,
        debug_locals: None,
    }
}

/// The contents of the section `s` of `m`, which has to lie inside the
/// image.
pub open spec fn plain_input(m: FileModel, s: SectionModel) -> Result<Seq<u8>, Error> {
    if !s.within(m.header.data.len()) {
        Err(eof())
    } else {
        Ok(section_bytes(m.header.data, s))
    }
}

/// The contents of the section `s` of `m` and the pool of the name table,
/// which the container has to have.
pub open spec fn named_input(m: FileModel, s: SectionModel) -> Result<(Seq<u8>, Seq<u8>), Error> {
    match m.names {
        None => Err(Error::InvalidIndex),
        Some(n) => match plain_input(m, s) {
            Err(e) => Err(e),
            Ok(bytes) => Ok((bytes, section_bytes(m.header.data, n))),
        },
    }
}

/// The container `m` with the section `s` noted if it is one of the three
/// that are read before all others: the two name tables and the debug
/// information header.
pub open spec fn note(m: FileModel, s: SectionModel) -> Result<FileModel, Error> {
    if s.name == ".names"@ {
        match plain_input(m, s) {
            Err(e) => Err(e),
            Ok(_) => Ok(FileModel { names: Some(s), ..m }),
        }
    } else if s.name == ".dbg.strings"@ {
        match plain_input(m, s) {
            Err(e) => Err(e),
            Ok(_) => Ok(FileModel { debug_names: Some(s), ..m }),
        }
    } else if s.name == ".dbg.info"@ {
        match plain_input(m, s) {
            Err(e) => Err(e),
            Ok(bytes) => match debug_info_header(bytes) {
                Err(e) => Err(e),
                Ok(h) => Ok(FileModel { debug_info: Some(h), ..m }),
            },
        }
    } else {
        Ok(m)
    }
}

/// The container `m` with the section `s` put where its name says. The
/// three sections that are read before all others are passed over; a section
/// whose name says nothing is noted as unknown. A section that is read has
/// to lie inside the image, and one whose rows have names needs the name
/// table.
pub open spec fn place(m: FileModel, s: SectionModel) -> Result<FileModel, Error> {
    if s.name == ".names"@ || s.name == ".dbg.strings"@ || s.name == ".dbg.info"@ {
        Ok(m)
    } else if s.name == ".natives"@ {
        match named_input(m, s) {
            Err(e) => Err(e),
            Ok((bytes, pool)) => match native_rows(bytes, s.size as int, pool) {
                Err(e) => Err(e),
                Ok(rows) => Ok(FileModel { natives: Some(rows), ..m }),
            },
        }
    } else if s.name == ".publics"@ {
        match named_input(m, s) {
            Err(e) => Err(e),
            Ok((bytes, pool)) => match named_rows(bytes, s.size as int, pool) {
                Err(e) => Err(e),
                Ok(rows) => Ok(FileModel { publics: Some(rows), ..m }),
            },
        }
    } else if s.name == ".pubvars"@ {
        match named_input(m, s) {
            Err(e) => Err(e),
            Ok((bytes, pool)) => match named_rows(bytes, s.size as int, pool) {
                Err(e) => Err(e),
                Ok(rows) => Ok(FileModel { pubvars: Some(rows), ..m }),
            },
        }
    } else if s.name == ".tags"@ {
        match named_input(m, s) {
            Err(e) => Err(e),
            Ok((bytes, pool)) => match named_rows(bytes, s.size as int, pool) {
                Err(e) => Err(e),
                Ok(rows) => Ok(FileModel { tags: Some(rows), ..m }),
            },
        }
    } else if s.name == ".data"@ {
        match plain_input(m, s) {
            Err(e) => Err(e),
            Ok(bytes) => match data_header(bytes) {
                Err(e) => Err(e),
                Ok(h) => Ok(FileModel { data: Some((s, h)), ..m }),
            },
        }
    } else if s.name == ".code"@ {
        match plain_input(m, s) {
            Err(e) => Err(e),
            Ok(bytes) => match code_header(bytes) {
                Err(e) => Err(e),
                Ok(h) => Ok(FileModel { codev1: Some((s, h)), ..m }),
            },
        }
    } else if s.name == ".dbg.files"@ {
        match named_input(m, s) {
            Err(e) => Err(e),
            Ok((bytes, pool)) => match named_rows(bytes, s.size as int, pool) {
                Err(e) => Err(e),
                Ok(rows) => Ok(FileModel { debug_files: Some(rows), ..m }),
            },
        }
    } else if s.name == ".dbg.lines"@ {
        match plain_input(m, s) {
            Err(e) => Err(e),
            Ok(bytes) => match line_rows(bytes, s.size as int) {
                Err(e) => Err(e),
                Ok(rows) => Ok(FileModel { debug_lines: Some(rows), ..m }),
            },
        }
    } else if s.name == ".dbg.methods"@ {
        match plain_input(m, s) {
            Err(e) => Err(e),
            Ok(bytes) => match plain_rows::<DebugMethodEntry>(bytes) {
                Err(e) => Err(e),
                Ok(rows) => Ok(FileModel { debug_methods: Some(rows), ..m }),
            },
        }
    } else if s.name == ".dbg.globals"@ {
        match plain_input(m, s) {
            Err(e) => Err(e),
            Ok(bytes) => match plain_rows::<DebugVarEntry>(bytes) {
                Err(e) => Err(e),
                Ok(rows) => Ok(FileModel { debug_globals: Some(rows), ..m }),
            },
        }
    } else if s.name == ".dbg.locals"@ {
        match plain_input(m, s) {
            Err(e) => Err(e),
            Ok(bytes) => match plain_rows::<DebugVarEntry>(bytes) {
                Err(e) => Err(e),
                Ok(rows) => Ok(FileModel { debug_locals: Some(rows), ..m }),
            },
        }
    } else if s.name == "rtti.data"@ {
        match plain_input(m, s) {
            Err(e) => Err(e),
            Ok(bytes) => Ok(FileModel { rtti_data: Some(bytes), ..m }),
        }
    } else if s.name == "rtti.classdefs"@ {
        match named_input(m, s) {
            Err(e) => Err(e),
            Ok((bytes, pool)) => match table_rows::<RTTIClassDef>(bytes, pool) {
                Err(e) => Err(e),
                Ok(rows) => Ok(FileModel { rtti_classdefs: Some(rows), ..m }),
            },
        }
    } else if s.name == "rtti.enumstructs"@ {
        match named_input(m, s) {
            Err(e) => Err(e),
            Ok((bytes, pool)) => match table_rows::<RTTIEnumStruct>(bytes, pool) {
                Err(e) => Err(e),
                Ok(rows) => Ok(FileModel { rtti_enum_structs: Some(rows), ..m }),
            },
        }
    } else if s.name == "rtti.enumstruct_fields"@ {
        match named_input(m, s) {
            Err(e) => Err(e),
            Ok((bytes, pool)) => match table_rows::<RTTIEnumStructField>(bytes, pool) {
                Err(e) => Err(e),
                Ok(rows) => Ok(FileModel { rtti_enum_struct_fields: Some(rows), ..m }),
            },
        }
    } else if s.name == "rtti.fields"@ {
        match named_input(m, s) {
            Err(e) => Err(e),
            Ok((bytes, pool)) => match table_rows::<RTTIField>(bytes, pool) {
                Err(e) => Err(e),
                Ok(rows) => Ok(FileModel { rtti_fields: Some(rows), ..m }),
            },
        }
    } else if s.name == "rtti.methods"@ {
        match named_input(m, s) {
            Err(e) => Err(e),
            Ok((bytes, pool)) => match table_rows::<RTTIMethod>(bytes, pool) {
                Err(e) => Err(e),
                Ok(rows) => Ok(FileModel { rtti_methods: Some(rows), ..m }),
            },
        }
    } else if s.name == "rtti.natives"@ {
        match named_input(m, s) {
            Err(e) => Err(e),
            Ok((bytes, pool)) => match table_rows::<RTTINative>(bytes, pool) {
                Err(e) => Err(e),
                Ok(rows) => Ok(FileModel { rtti_natives: Some(rows), ..m }),
            },
        }
    } else if s.name == "rtti.enums"@ {
        match named_input(m, s) {
            Err(e) => Err(e),
            Ok((bytes, pool)) => match table_rows::<RTTIEnum>(bytes, pool) {
                Err(e) => Err(e),
                Ok(rows) => Ok(FileModel { rtti_enums: Some(rows), ..m }),
            },
        }
    } else if s.name == "rtti.typedefs"@ {
        match named_input(m, s) {
            Err(e) => Err(e),
            Ok((bytes, pool)) => match table_rows::<RTTITypedef>(bytes, pool) {
                Err(e) => Err(e),
                Ok(rows) => Ok(FileModel { rtti_typedefs: Some(rows), ..m }),
            },
        }
    } else if s.name == "rtti.typesets"@ {
        match named_input(m, s) {
            Err(e) => Err(e),
            Ok((bytes, pool)) => match table_rows::<RTTITypeset>(bytes, pool) {
                Err(e) => Err(e),
                Ok(rows) => Ok(FileModel { rtti_typesets: Some(rows), ..m }),
            },
        }
    } else {
        Ok(FileModel { unknown_sections: m.unknown_sections.push(s), ..m })
    }
}

/// The container `m` after the first `k` of `sections` were noted.
pub open spec fn noted(m: FileModel, sections: Seq<SectionModel>, k: nat) -> Result<
    FileModel,
    Error,
>
    decreases k,
{
    if k == 0 {
        Ok(m)
    } else {
        match noted(m, sections, (k - 1) as nat) {
            Err(e) => Err(e),
            Ok(before) => note(before, sections[k - 1]),
        }
    }
}

/// The container `m` after the first `k` of `sections` were placed.
pub open spec fn placed(m: FileModel, sections: Seq<SectionModel>, k: nat) -> Result<
    FileModel,
    Error,
>
    decreases k,
{
    if k == 0 {
        Ok(m)
    } else {
        match placed(m, sections, (k - 1) as nat) {
            Err(e) => Err(e),
            Ok(before) => place(before, sections[k - 1]),
        }
    }
}

/// Where noting fails at section `k`, it fails for every longer directory.
pub proof fn lemma_noted_fails(m: FileModel, sections: Seq<SectionModel>, k: nat, count: nat)
    requires
        k <= count,
        noted(m, sections, k) is Err,
    ensures
        noted(m, sections, count) == noted(m, sections, k),
    decreases count,
{
    if count > k {
        lemma_noted_fails(m, sections, k, (count - 1) as nat);
    }
}

/// Where placing fails at section `k`, it fails for every longer directory.
pub proof fn lemma_placed_fails(m: FileModel, sections: Seq<SectionModel>, k: nat, count: nat)
    requires
        k <= count,
        placed(m, sections, k) is Err,
    ensures
        placed(m, sections, count) == placed(m, sections, k),
    decreases count,
{
    if count > k {
        lemma_placed_fails(m, sections, k, (count - 1) as nat);
    }
}

impl FileModel {
    /// The addresses of the public functions.
    pub open spec fn public_addresses(self) -> Seq<u32> {
        match self.publics {
            Some(rows) => rows.map_values(|r: NameRow| r.value),
            None => Seq::empty(),
        }
    }

    /// The instructions of the procedure at `proc_offset` of the code. Code
    /// addresses count from the data offset of the header plus the code
    /// offset of the code header.
    pub open spec fn procedure_at(self, proc_offset: i32) -> Result<Seq<InstructionModel>, Error> {
        match self.codev1 {
            Some((s, h)) => procedure(
                self.header.data,
                self.header.data_offset + h.code_offset,
                h.code_size as int,
                proc_offset as int,
            ),
            None => Err(eof()),
        }
    }

    /// The functions that are found once the first `k` public functions were
    /// disassembled, where `called` were found before.
    pub open spec fn after_publics(self, called: Seq<u32>, k: nat) -> Result<Seq<u32>, Error>
        decreases k,
    {
        if k == 0 {
            Ok(called)
        } else {
            match self.after_publics(called, (k - 1) as nat) {
                Err(e) => Err(e),
                Ok(before) => match self.procedure_at(
                    signed32(self.public_addresses()[k - 1]),
                ) {
                    Err(e) => Err(e),
                    Ok(instructions) => Ok(
                        with_calls(self.public_addresses(), before, instructions),
                    ),
                },
            }
        }
    }

    /// The functions that are found once every function from `called[i]` on
    /// was disassembled, those included that this adds to `called`. No table
    /// holds more functions than `usize::MAX`, which is where this stops.
    pub open spec fn after_called(self, called: Seq<u32>, i: nat) -> Result<Seq<u32>, Error>
        decreases usize::MAX - i,
    {
        if i >= called.len() || i >= usize::MAX {
            Ok(called)
        } else {
            match self.procedure_at(signed32(called[i as int])) {
                Err(e) => Err(e),
                Ok(instructions) => self.after_called(
                    with_calls(self.public_addresses(), called, instructions),
                    i + 1,
                ),
            }
        }
    }

    /// The functions that disassembly finds: every public function is
    /// disassembled, then every function that was found, in the order in
    /// which they were found.
    pub open spec fn explored(self) -> Result<Seq<u32>, Error> {
        match self.after_publics(Seq::empty(), self.public_addresses().len()) {
            Err(e) => Err(e),
            Ok(called) => self.after_called(called, 0),
        }
    }
}

/// The container with header `header`: the name tables and the debug
/// information header are noted, the name table stands in for a missing one
/// of the debug tables, every section is placed, and the code is explored.
pub open spec fn built(header: HeaderModel) -> Result<FileModel, Error> {
    match noted(unread(header), header.sections, header.sections.len()) {
        Err(e) => Err(e),
        Ok(first) => {
            let second = if first.debug_names is None {
                FileModel { debug_names: first.names, ..first }
            } else {
                first
            };
            match placed(second, header.sections, header.sections.len()) {
                Err(e) => Err(e),
                Ok(third) => match third.explored() {
                    Err(e) => Err(e),
                    Ok(called) => Ok(FileModel { called_functions: Some(called), ..third }),
                },
            }
        },
    }
}

/// The container that loading `d` gives, where `inflated` is what its
/// compressed tail expands to.
pub open spec fn load_file(d: Seq<u8>, inflated: Option<Seq<u8>>) -> Result<FileModel, Error> {
    match load(d, inflated) {
        Err(e) => Err(e),
        Ok(header) => built(header),
    }
}

/// The first position from `from` on at which `addresses` holds `addr`.
pub open spec fn first_index(addresses: Seq<u32>, addr: u32, from: int) -> Option<int>
    decreases addresses.len() - from,
{
    if from < 0 || from >= addresses.len() {
        None
    } else if addresses[from] == addr {
        Some(from)
    } else {
        first_index(addresses, addr, from + 1)
    }
}

/// The name of the first of `rows` from `from` on whose number is `addr`.
pub open spec fn first_named(rows: Seq<NameRow>, addr: u32, from: int) -> Option<Seq<char>>
    decreases rows.len() - from,
{
    if from < 0 || from >= rows.len() {
        None
    } else if rows[from].value == addr {
        Some(rows[from].name)
    } else {
        first_named(rows, addr, from + 1)
    }
}

/// The name of the function at `addr`: that of the first of `publics` there,
/// else that of the first of the functions that were found there, whose
/// names are `called_names` and whose addresses are `called`, else
/// `unknown`.
pub open spec fn function_name(
    publics: Seq<NameRow>,
    called_names: Seq<Seq<char>>,
    called: Seq<u32>,
    addr: u32,
) -> Seq<char> {
    match first_named(publics, addr, 0) {
        Some(name) => name,
        None => match first_index(called, addr, 0) {
            Some(i) => called_names[i],
            None => "unknown"@,
        },
    }
}

/// The text of a name that was found.
pub open spec fn text_of_name(r: Option<String>) -> Option<Seq<char>> {
    match r {
        Some(s) => Some(s@),
        None => None,
    }
}

impl FileModel {
    /// The name at `offset` of the name table, where there is one.
    pub open spec fn name_text(self, offset: i32) -> Option<Seq<char>> {
        match self.names {
            Some(n) => match name_at(section_bytes(self.header.data, n), offset as int) {
                Ok(name) => Some(name),
                Err(_) => None,
            },
            None => None,
        }
    }

    /// The name of the first global variable at `addr`.
    pub open spec fn global_name(self, addr: i32) -> Option<Seq<char>> {
        match self.debug_globals {
            Some(rows) => match first_at(rows, addr, 0) {
                Some(symbol) => self.name_text(symbol.name_offset),
                None => None,
            },
            None => None,
        }
    }

    /// The name of the local variable at `addr` that is in scope at
    /// `code_addr`; of several, that of the last in the table.
    pub open spec fn local_name(self, code_addr: i32, addr: i32) -> Option<Seq<char>> {
        match self.debug_locals {
            Some(rows) => match last_local(rows, code_addr, addr, rows.len() as int) {
                Some(symbol) => self.name_text(symbol.name_offset),
                None => None,
            },
            None => None,
        }
    }
}

/// The model of a loading result.
pub open spec fn filed(r: Result<SMXFile, Error>) -> Result<FileModel, Error> {
    match r {
        Ok(f) => Ok(f@),
        Err(e) => Err(e),
    }
}

/// Whether `s` reads `lit`.
pub fn name_is(s: &String, lit: &str) -> (r: bool)
    ensures
        r == (s@ == lit@),
{
    let other = String::from_str(lit);
    *s == other
}

/// Whether `section` lies inside the image of `header`.
pub fn fits(header: &SMXHeader, section: &SectionEntry) -> (r: bool)
    ensures
        r == section@.within(header.data@.len()),
{
    section.name_offset >= 0 && section.data_offset >= crate::headers::HEADER_SIZE
        && section.size >= 0 && section.data_offset as u64 + section.size as u64
        <= header.data.len() as u64
}

impl SMXFile {
    /// What every container upholds: its tables were read from its own
    /// image, and those that remember lookups remember them right.
    pub open spec fn wf(&self) -> bool {
        &&& self.names matches Some(t) ==> t.wf() && t.pool() == section_bytes(
            self.header.data@,
            t.section(),
        )
        &&& self.debug_names matches Some(t) ==> t.wf() && t.pool() == section_bytes(
            self.header.data@,
            t.section(),
        )
        &&& self.tags matches Some(t) ==> t.wf()
        &&& self.codev1 matches Some(t) ==> t.image() == self.header.data@
            && t.container_data_offset() == self.header.data_offset
        &&& self.data matches Some(t) ==> t.image() == self.header.data@
        &&& self.called_functions matches Some(t) ==> named_by_address(t@)
    }

    /// The names that encoded types refer to by index. A table that the
    /// container lacks has no names.
    pub open spec fn type_names(&self) -> TypeNames {
        TypeNames {
            enums: match self.rtti_enums {
                Some(t) => texts(t@),
                None => Seq::empty(),
            },
            typedefs: match self.rtti_typedefs {
                Some(t) => t@.map_values(|r: RTTITypedef| r.name@),
                None => Seq::empty(),
            },
            typesets: match self.rtti_typesets {
                Some(t) => t@.map_values(|r: RTTITypeset| r.name@),
                None => Seq::empty(),
            },
            classdefs: match self.rtti_classdefs {
                Some(t) => t@.map_values(|r: RTTIClassDef| r.name@),
                None => Seq::empty(),
            },
            enum_structs: match self.rtti_enum_structs {
                Some(t) => t@.map_values(|r: RTTIEnumStruct| r.name@),
                None => Seq::empty(),
            },
        }
    }

    /// The addresses of the public functions.
    pub open spec fn public_addresses(&self) -> Seq<u32> {
        match self.publics {
            Some(t) => public_addresses(t@),
            None => Seq::empty(),
        }
    }

    /// The addresses of the functions that disassembly found.
    pub open spec fn called_addresses(&self) -> Seq<u32> {
        match self.called_functions {
            Some(t) => called_addresses(t@),
            None => Seq::empty(),
        }
    }

    /// The instructions of the procedure at `proc_offset` of the code.
    pub open spec fn procedure_at(&self, proc_offset: i32) -> Result<Seq<InstructionModel>, Error> {
        match self.codev1 {
            Some(code) => procedure(
                code.image(),
                code.spec_code_start(),
                code.spec_header().code_size as int,
                proc_offset as int,
            ),
            None => Err(eof()),
        }
    }

    /// A container with header `header` of which no section has been read.
    pub fn unread(header: Rc<SMXHeader>) -> (r: Self)
        ensures
            r.wf(),
            r.header == header,
            r@ == unread(header@),
            r.called_functions is Some,
            r.called_addresses() == Seq::<u32>::empty(),
    {
        let r = SMXFile {
            header,
            unknown_sections: Vec::new(),
            names: None,
            debug_names: None,
            natives: None,
            publics: None,
            pubvars: None,
            tags: None,
            data: None,
            codev1: None,
            called_functions: Some(SMXCalledFunctionsTable::new()),
            debug_info: None,
            debug_files: None,
            debug_lines: None,
            rtti_data: None,
            rtti_enums: None,
            rtti_enum_structs: None,
            rtti_enum_struct_fields: None,
            rtti_classdefs: None,
            rtti_fields: None,
            rtti_methods: None,
            rtti_natives: None,
            rtti_typedefs: None,
            rtti_typesets: None,
            debug_methods: None,
            debug_globals: None,
            debug_locals: None,
        };
        assert(section_models(r.unknown_sections@) =~= Seq::<SectionModel>::empty());
        assert(called_addresses(r.called_functions->0@) =~= Seq::<u32>::empty());
        assert(r@ == unread(r.header@)) by {
            reveal(SMXFile::model);
        }
        r
    }

    /// Notes `section` if it is one of the three that are read before all
    /// others.
    fn note(&mut self, header: &Rc<SMXHeader>, section: &SectionEntry) -> (r: Result<(), Error>)
        requires
            old(self).wf(),
            old(self).header == *header,
        ensures
            final(self).header == old(self).header,
            final(self).called_functions == old(self).called_functions,
            match r {
                Ok(_) => final(self).wf() && note(old(self)@, section@) == Ok::<FileModel, Error>(
                    final(self)@,
                ),
                Err(e) => note(old(self)@, section@) == Err::<FileModel, Error>(e),
            },
    {
        proof {
            reveal(SMXFile::model);
        }
        let ghost before = self@;
        if name_is(&section.name, ".names") {
            if !fits(header, section) {
                return Err(Error::Io(IoError::UnexpectedEof));
            }
            let t = SMXNameTable::new(share(header), section.clone());
            let ghost shown = section@;
            self.names = Some(t);
            assert(self@ == (FileModel { names: Some(shown), ..before }));
            assert(self.wf());
            return Ok(());
        } else if name_is(&section.name, ".dbg.strings") {
            if !fits(header, section) {
                return Err(Error::Io(IoError::UnexpectedEof));
            }
            let t = SMXNameTable::new(share(header), section.clone());
            let ghost shown = section@;
            self.debug_names = Some(t);
            assert(self@ == (FileModel { debug_names: Some(shown), ..before }));
            assert(self.wf());
            return Ok(());
        } else if name_is(&section.name, ".dbg.info") {
            if !fits(header, section) {
                return Err(Error::Io(IoError::UnexpectedEof));
            }
            let t = SMXDebugInfoSection::new(header, section)?;
            let ghost shown = t@;
            self.debug_info = Some(t);
            assert(self@ == (FileModel { debug_info: Some(shown), ..before }));
            assert(self.wf());
            return Ok(());
        }
        Ok(())
    }

    /// Reads `section` into the table that its name says.
    fn place(&mut self, header: &Rc<SMXHeader>, section: &SectionEntry) -> (r: Result<(), Error>)
        requires
            old(self).wf(),
            old(self).header == *header,
        ensures
            final(self).header == old(self).header,
            final(self).called_functions == old(self).called_functions,
            match r {
                Ok(_) => final(self).wf() && place(old(self)@, section@) == Ok::<FileModel, Error>(
                    final(self)@,
                ),
                Err(e) => place(old(self)@, section@) == Err::<FileModel, Error>(e),
            },
    {
        proof {
            reveal(SMXFile::model);
        }
        let ghost before = self@;
        if name_is(&section.name, ".names") || name_is(&section.name, ".dbg.strings") || name_is(
            &section.name,
            ".dbg.info",
        ) {
        } else if name_is(&section.name, ".natives") {
            match &mut self.names {
                None => {
                    return Err(Error::InvalidIndex);
                },
                Some(names) => {
                    if !fits(header, section) {
                        return Err(Error::Io(IoError::UnexpectedEof));
                    }
                    let t = SMXNativeTable::new(header, section, names)?;
                    let ghost shown = native_models(t@);
                    self.natives = Some(t);
                    assert(self@ == (FileModel { natives: Some(shown), ..before }));
                },
            }
        } else if name_is(&section.name, ".publics") {
            match &mut self.names {
                None => {
                    return Err(Error::InvalidIndex);
                },
                Some(names) => {
                    if !fits(header, section) {
                        return Err(Error::Io(IoError::UnexpectedEof));
                    }
                    let t = SMXPublicTable::new(header, section, names)?;
                    let ghost shown = rows_of(t@);
                    self.publics = Some(t);
                    assert(self@ == (FileModel { publics: Some(shown), ..before }));
                },
            }
        } else if name_is(&section.name, ".pubvars") {
            match &mut self.names {
                None => {
                    return Err(Error::InvalidIndex);
                },
                Some(names) => {
                    if !fits(header, section) {
                        return Err(Error::Io(IoError::UnexpectedEof));
                    }
                    let t = SMXPubvarTable::new(header, section, names)?;
                    let ghost shown = rows_of(t@);
                    self.pubvars = Some(t);
                    assert(self@ == (FileModel { pubvars: Some(shown), ..before }));
                },
            }
        } else if name_is(&section.name, ".tags") {
            match &mut self.names {
                None => {
                    return Err(Error::InvalidIndex);
                },
                Some(names) => {
                    if !fits(header, section) {
                        return Err(Error::Io(IoError::UnexpectedEof));
                    }
                    let t = SMXTagTable::new(header, section, names)?;
                    let ghost shown = rows_of(tag_rows(t@));
                    self.tags = Some(t);
                    assert(self@ == (FileModel { tags: Some(shown), ..before }));
                },
            }
        } else if name_is(&section.name, ".data") {
            if !fits(header, section) {
                return Err(Error::Io(IoError::UnexpectedEof));
            }
            let t = SMXDataSection::new(share(header), section.clone())?;
            let ghost shown = (section@, t.spec_header());
            self.data = Some(t);
            assert(self@ == (FileModel { data: Some(shown), ..before }));
        } else if name_is(&section.name, ".code") {
            if !fits(header, section) {
                return Err(Error::Io(IoError::UnexpectedEof));
            }
            let t = SMXCodeV1Section::new(share(header), section.clone())?;
            let ghost shown = (section@, t.spec_header());
            self.codev1 = Some(t);
            assert(self@ == (FileModel { codev1: Some(shown), ..before }));
        } else if name_is(&section.name, ".dbg.files") {
            match &mut self.names {
                None => {
                    return Err(Error::InvalidIndex);
                },
                Some(names) => {
                    if !fits(header, section) {
                        return Err(Error::Io(IoError::UnexpectedEof));
                    }
                    let t = SMXDebugFilesTable::new(header, section, names)?;
                    let ghost shown = rows_of(t@);
                    self.debug_files = Some(t);
                    assert(self@ == (FileModel { debug_files: Some(shown), ..before }));
                },
            }
        } else if name_is(&section.name, ".dbg.lines") {
            if !fits(header, section) {
                return Err(Error::Io(IoError::UnexpectedEof));
            }
            let t = SMXDebugLinesTable::new(header, section)?;
            let ghost shown = t@;
            self.debug_lines = Some(t);
            assert(self@ == (FileModel { debug_lines: Some(shown), ..before }));
        } else if name_is(&section.name, ".dbg.methods") {
            if !fits(header, section) {
                return Err(Error::Io(IoError::UnexpectedEof));
            }
            let t = SMXDebugMethods::new(header, section)?;
            let ghost shown = t@;
            self.debug_methods = Some(t);
            assert(self@ == (FileModel { debug_methods: Some(shown), ..before }));
        } else if name_is(&section.name, ".dbg.globals") {
            if !fits(header, section) {
                return Err(Error::Io(IoError::UnexpectedEof));
            }
            let t = SMXDebugGlobals::new(header, section)?;
            let ghost shown = t@;
            self.debug_globals = Some(t);
            assert(self@ == (FileModel { debug_globals: Some(shown), ..before }));
        } else if name_is(&section.name, ".dbg.locals") {
            if !fits(header, section) {
                return Err(Error::Io(IoError::UnexpectedEof));
            }
            let t = SMXDebugLocals::new(header, section)?;
            let ghost shown = t@;
            self.debug_locals = Some(t);
            assert(self@ == (FileModel { debug_locals: Some(shown), ..before }));
        } else if name_is(&section.name, "rtti.data") {
            if !fits(header, section) {
                return Err(Error::Io(IoError::UnexpectedEof));
            }
            let t = SMXRTTIData::new(header, section);
            let ghost shown = t@;
            self.rtti_data = Some(t);
            assert(self@ == (FileModel { rtti_data: Some(shown), ..before }));
        } else if name_is(&section.name, "rtti.classdefs") {
            match &mut self.names {
                None => {
                    return Err(Error::InvalidIndex);
                },
                Some(names) => {
                    if !fits(header, section) {
                        return Err(Error::Io(IoError::UnexpectedEof));
                    }
                    let t = SMXRTTIClassDefTable::new(share(header), section.clone(), names)?;
                    let ghost shown = row_views(t@);
                    self.rtti_classdefs = Some(t);
                    assert(self@ == (FileModel { rtti_classdefs: Some(shown), ..before }));
                },
            }
        } else if name_is(&section.name, "rtti.enumstructs") {
            match &mut self.names {
                None => {
                    return Err(Error::InvalidIndex);
                },
                Some(names) => {
                    if !fits(header, section) {
                        return Err(Error::Io(IoError::UnexpectedEof));
                    }
                    let t = SMXRTTIEnumStructTable::new(share(header), section.clone(), names)?;
                    let ghost shown = row_views(t@);
                    self.rtti_enum_structs = Some(t);
                    assert(self@ == (FileModel { rtti_enum_structs: Some(shown), ..before }));
                },
            }
        } else if name_is(&section.name, "rtti.enumstruct_fields") {
            match &mut self.names {
                None => {
                    return Err(Error::InvalidIndex);
                },
                Some(names) => {
                    if !fits(header, section) {
                        return Err(Error::Io(IoError::UnexpectedEof));
                    }
                    let t = SMXRTTIEnumStructFieldTable::new(share(header), section.clone(), names)?;
                    let ghost shown = row_views(t@);
                    self.rtti_enum_struct_fields = Some(t);
                    assert(self@ == (FileModel { rtti_enum_struct_fields: Some(shown), ..before }));
                },
            }
        } else if name_is(&section.name, "rtti.fields") {
            match &mut self.names {
                None => {
                    return Err(Error::InvalidIndex);
                },
                Some(names) => {
                    if !fits(header, section) {
                        return Err(Error::Io(IoError::UnexpectedEof));
                    }
                    let t = SMXRTTIFieldTable::new(share(header), section.clone(), names)?;
                    let ghost shown = row_views(t@);
                    self.rtti_fields = Some(t);
                    assert(self@ == (FileModel { rtti_fields: Some(shown), ..before }));
                },
            }
        } else if name_is(&section.name, "rtti.methods") {
            match &mut self.names {
                None => {
                    return Err(Error::InvalidIndex);
                },
                Some(names) => {
                    if !fits(header, section) {
                        return Err(Error::Io(IoError::UnexpectedEof));
                    }
                    let t = SMXRTTIMethodTable::new(share(header), section.clone(), names)?;
                    let ghost shown = row_views(t@);
                    self.rtti_methods = Some(t);
                    assert(self@ == (FileModel { rtti_methods: Some(shown), ..before }));
                },
            }
        } else if name_is(&section.name, "rtti.natives") {
            match &mut self.names {
                None => {
                    return Err(Error::InvalidIndex);
                },
                Some(names) => {
                    if !fits(header, section) {
                        return Err(Error::Io(IoError::UnexpectedEof));
                    }
                    let t = SMXRTTINativeTable::new(share(header), section.clone(), names)?;
                    let ghost shown = row_views(t@);
                    self.rtti_natives = Some(t);
                    assert(self@ == (FileModel { rtti_natives: Some(shown), ..before }));
                },
            }
        } else if name_is(&section.name, "rtti.enums") {
            match &mut self.names {
                None => {
                    return Err(Error::InvalidIndex);
                },
                Some(names) => {
                    if !fits(header, section) {
                        return Err(Error::Io(IoError::UnexpectedEof));
                    }
                    let t = SMXRTTIEnumTable::new(share(header), section.clone(), names)?;
                    let ghost shown = texts(t@);
                    self.rtti_enums = Some(t);
                    assert(self@ == (FileModel { rtti_enums: Some(shown), ..before }));
                },
            }
        } else if name_is(&section.name, "rtti.typedefs") {
            match &mut self.names {
                None => {
                    return Err(Error::InvalidIndex);
                },
                Some(names) => {
                    if !fits(header, section) {
                        return Err(Error::Io(IoError::UnexpectedEof));
                    }
                    let t = SMXRTTITypedefTable::new(share(header), section.clone(), names)?;
                    let ghost shown = row_views(t@);
                    self.rtti_typedefs = Some(t);
                    assert(self@ == (FileModel { rtti_typedefs: Some(shown), ..before }));
                },
            }
        } else if name_is(&section.name, "rtti.typesets") {
            match &mut self.names {
                None => {
                    return Err(Error::InvalidIndex);
                },
                Some(names) => {
                    if !fits(header, section) {
                        return Err(Error::Io(IoError::UnexpectedEof));
                    }
                    let t = SMXRTTITypesetTable::new(share(header), section.clone(), names)?;
                    let ghost shown = row_views(t@);
                    self.rtti_typesets = Some(t);
                    assert(self@ == (FileModel { rtti_typesets: Some(shown), ..before }));
                },
            }
        } else {
            self.unknown_sections.push(section.clone());
            assert(section_models(self.unknown_sections@) =~= section_models(
                old(self).unknown_sections@,
            ).push(section@));
            assert(self@ == (FileModel {
                unknown_sections: before.unknown_sections.push(section@),
                ..before
            }));
        }
        Ok(())
    }

    /// The specifications of the container and of its model agree on the
    /// public functions, on the code, and on the functions that were found.
    pub proof fn lemma_model_agrees(&self)
        requires
            self.wf(),
        ensures
            self@.public_addresses() == self.public_addresses(),
            forall|o: i32| #[trigger] self@.procedure_at(o) == self.procedure_at(o),
            self@.codev1 is Some <==> self.codev1 is Some,
            self@.called_functions == (match self.called_functions {
                Some(t) => Some(called_addresses(t@)),
                None => None,
            }),
            self@.names == (match self.names {
                Some(t) => Some(t.section()),
                None => None,
            }),
            self@.debug_names == (match self.debug_names {
                Some(t) => Some(t.section()),
                None => None,
            }),
            self@.header == self.header@,
    {
        reveal(SMXFile::model);
        match self.publics {
            Some(t) => {
                assert(rows_of(t@).map_values(|r: NameRow| r.value) =~= public_addresses(t@));
            },
            None => {},
        }
    }

    /// The model holds the rows of the tables of debug symbols.
    pub proof fn lemma_model_tables(&self)
        ensures
            self@.debug_globals == (match self.debug_globals {
                Some(t) => Some(t@),
                None => None,
            }),
            self@.debug_locals == (match self.debug_locals {
                Some(t) => Some(t@),
                None => None,
            }),
    {
        reveal(SMXFile::model);
    }

    /// A container that differs from `other` only in what its name table
    /// remembers has the model of `other`.
    pub proof fn lemma_model_with_names(&self, other: &SMXFile)
        requires
            *self == (SMXFile { names: self.names, ..*other }),
            self.names is Some <==> other.names is Some,
            self.names is Some ==> self.names->0.section() == other.names->0.section(),
        ensures
            self@ == other@,
    {
        reveal(SMXFile::model);
        let names = match self.names {
            Some(t) => Some(t.section()),
            None => None,
        };
        assert(other@.names == names);
        assert(self@ == (FileModel { names, ..other@ }));
    }

    /// A container that differs from `other` in the functions that were
    /// found only has the model of `other` with those functions.
    pub proof fn lemma_model_with_calls(&self, other: &SMXFile)
        requires
            *self == (SMXFile { called_functions: self.called_functions, ..*other }),
            self.called_functions is Some,
        ensures
            self@ == (FileModel {
                called_functions: Some(self.called_addresses()),
                ..other@
            }),
    {
        reveal(SMXFile::model);
    }

    /// Builds the container with header `header`: reads every section that
    /// is known by name into its table, then disassembles every public
    /// function and every function that this finds.
    pub fn from_header(header: SMXHeader) -> (r: Result<SMXFile, Error>)
        ensures
            filed(r) == built(header@),
            r matches Ok(f) ==> f.wf() && *f.header == header,
    {
        let ghost given = header;
        let shared = Rc::new(header);
        let mut file = SMXFile::unread(share(&shared));
        let count = shared.sections.len();
        let ghost sections = given@.sections;
        let ghost start = unread(given@);
        let mut k: usize = 0;
        while k < count
            invariant
                k <= count,
                given == header,
                *shared == given,
                count == shared.sections@.len(),
                sections.len() == count,
                sections == given@.sections,
                start == unread(given@),
                file.wf(),
                file.header == shared,
                file.called_functions is Some,
                file.called_addresses() == Seq::<u32>::empty(),
                noted(start, sections, k as nat) == Ok::<FileModel, Error>(file@),
            decreases count - k,
        {
            assert(sections[k as int] == shared.sections@[k as int]@);
            match file.note(&shared, &shared.sections[k]) {
                Ok(_) => {},
                Err(e) => {
                    proof {
                        lemma_noted_fails(start, sections, (k + 1) as nat, count as nat);
                    }
                    return Err(e);
                },
            }
            k = k + 1;
        }
        let ghost first = file@;
        proof {
            file.lemma_model_agrees();
        }
        if file.debug_names.is_none() {
            match &file.names {
                Some(names) => {
                    let t = names.fresh();
                    file.debug_names = Some(t);
                },
                None => {},
            }
            assert(file@ == (FileModel { debug_names: first.names, ..first })) by {
                reveal(SMXFile::model);
            }
        }
        let ghost second = file@;
        let mut k: usize = 0;
        while k < count
            invariant
                k <= count,
                given == header,
                *shared == given,
                count == shared.sections@.len(),
                sections.len() == count,
                sections == given@.sections,
                start == unread(given@),
                noted(start, sections, count as nat) == Ok::<FileModel, Error>(first),
                second == (if first.debug_names is None {
                    FileModel { debug_names: first.names, ..first }
                } else {
                    first
                }),
                file.wf(),
                file.header == shared,
                file.called_functions is Some,
                file.called_addresses() == Seq::<u32>::empty(),
                placed(second, sections, k as nat) == Ok::<FileModel, Error>(file@),
            decreases count - k,
        {
            assert(sections[k as int] == shared.sections@[k as int]@);
            match file.place(&shared, &shared.sections[k]) {
                Ok(_) => {},
                Err(e) => {
                    proof {
                        lemma_placed_fails(second, sections, (k + 1) as nat, count as nat);
                    }
                    return Err(e);
                },
            }
            k = k + 1;
        }
        match file.explore() {
            Ok(_) => Ok(file),
            Err(e) => Err(e),
        }
    }

    /// The addresses of the public functions.
    fn public_entry_points(&self) -> (r: Vec<u32>)
        ensures
            r@ == self.public_addresses(),
    {
        let mut addresses: Vec<u32> = Vec::new();
        match &self.publics {
            Some(t) => {
                let rows = t.entries_ref();
                let mut i: usize = 0;
                while i < rows.len()
                    invariant
                        i <= rows@.len(),
                        addresses@ == public_addresses(rows@).take(i as int),
                    decreases rows@.len() - i,
                {
                    addresses.push(rows[i].address);
                    assert(public_addresses(rows@).take(i + 1) =~= public_addresses(rows@).take(
                        i as int,
                    ).push(rows@[i as int].address));
                    i = i + 1;
                }
                assert(public_addresses(rows@).take(rows@.len() as int) =~= public_addresses(
                    rows@,
                ));
            },
            None => {},
        }
        addresses
    }

    /// Disassembles every public function and notes the functions that this
    /// finds.
    fn explore_publics(&mut self) -> (r: Result<(), Error>)
        requires
            old(self).wf(),
            old(self).called_functions is Some,
            old(self).called_addresses() == Seq::<u32>::empty(),
        ensures
            *final(self) == (SMXFile {
                called_functions: final(self).called_functions,
                ..*old(self)
            }),
            final(self).called_functions is Some,
            named_by_address(final(self).called_functions->0@),
            match r {
                Ok(_) => old(self)@.after_publics(
                    Seq::empty(),
                    old(self)@.public_addresses().len(),
                ) == Ok::<Seq<u32>, Error>(final(self).called_addresses()),
                Err(e) => old(self)@.after_publics(
                    Seq::empty(),
                    old(self)@.public_addresses().len(),
                ) == Err::<Seq<u32>, Error>(e),
            },
    {
        let ghost before = self@;
        let ghost entry = *self;
        let publics = self.public_entry_points();
        proof {
            self.lemma_model_agrees();
        }
        if self.codev1.is_none() {
            if publics.len() > 0 {
                proof {
                    lemma_no_code(before, Seq::empty(), publics@.len());
                }
                return Err(Error::Io(IoError::UnexpectedEof));
            }
            return Ok(());
        }
        let mut k: usize = 0;
        while k < publics.len()
            invariant
                k <= publics@.len(),
                entry == *old(self),
                before == old(self)@,
                publics@ == before.public_addresses(),
                publics@ == entry.public_addresses(),
                forall|o: i32| #[trigger] before.procedure_at(o) == entry.procedure_at(o),
                *self == (SMXFile { called_functions: self.called_functions, ..entry }),
                self.called_functions is Some,
                self.codev1 is Some,
                named_by_address(self.called_functions->0@),
                before.after_publics(Seq::empty(), k as nat) == Ok::<Seq<u32>, Error>(
                    self.called_addresses(),
                ),
            decreases publics@.len() - k,
        {
            let ghost offset = signed32(publics@[k as int]);
            assert(before.procedure_at(offset) == self.procedure_at(offset));
            match V1Disassembler::diassemble(self, as_signed(publics[k])) {
                Ok(_) => {},
                Err(e) => {
                    proof {
                        lemma_after_publics_fails(
                            before,
                            Seq::empty(),
                            (k + 1) as nat,
                            publics@.len(),
                        );
                    }
                    return Err(e);
                },
            }
            k = k + 1;
        }
        Ok(())
    }

    /// Disassembles every function that was found and notes the functions
    /// that this finds, until none is left.
    fn explore_called(&mut self) -> (r: Result<(), Error>)
        requires
            old(self).wf(),
            old(self).called_functions is Some,
        ensures
            *final(self) == (SMXFile {
                called_functions: final(self).called_functions,
                ..*old(self)
            }),
            final(self).called_functions is Some,
            named_by_address(final(self).called_functions->0@),
            match r {
                Ok(_) => old(self)@.after_called(old(self).called_addresses(), 0) == Ok::<
                    Seq<u32>,
                    Error,
                >(final(self).called_addresses()),
                Err(e) => old(self)@.after_called(old(self).called_addresses(), 0) == Err::<
                    Seq<u32>,
                    Error,
                >(e),
            },
    {
        let ghost before = self@;
        let ghost entry = *self;
        let ghost found = self.called_addresses();
        proof {
            self.lemma_model_agrees();
        }
        let mut i: usize = 0;
        loop
            invariant
                entry == *old(self),
                before == old(self)@,
                found == old(self).called_addresses(),
                before.public_addresses() == entry.public_addresses(),
                forall|o: i32| #[trigger] before.procedure_at(o) == entry.procedure_at(o),
                *self == (SMXFile { called_functions: self.called_functions, ..entry }),
                self.called_functions is Some,
                named_by_address(self.called_functions->0@),
                i <= self.called_addresses().len(),
                before.after_called(found, 0) == before.after_called(
                    self.called_addresses(),
                    i as nat,
                ),
            ensures
                *self == (SMXFile { called_functions: self.called_functions, ..entry }),
                self.called_functions is Some,
                named_by_address(self.called_functions->0@),
                before.after_called(found, 0) == Ok::<Seq<u32>, Error>(self.called_addresses()),
            decreases usize::MAX - i,
        {
            let address = match &self.called_functions {
                Some(t) => {
                    if i >= t.size() {
                        break ;
                    }
                    t.entries_ref()[i].address
                },
                None => {
                    break ;
                },
            };
            let ghost offset = signed32(address);
            assert(before.procedure_at(offset) == self.procedure_at(offset));
            assert(address == self.called_addresses()[i as int]);
            if self.codev1.is_none() {
                return Err(Error::Io(IoError::UnexpectedEof));
            }
            match V1Disassembler::diassemble(self, as_signed(address)) {
                Ok(_) => {},
                Err(e) => {
                    return Err(e);
                },
            }
            i = i + 1;
        }
        Ok(())
    }

    /// Disassembles every public function, then every function that this
    /// finds, and notes what was found.
    fn explore(&mut self) -> (r: Result<(), Error>)
        requires
            old(self).wf(),
            old(self).called_functions is Some,
            old(self).called_addresses() == Seq::<u32>::empty(),
        ensures
            final(self).header == old(self).header,
            match r {
                Ok(_) => final(self).wf() && old(self)@.explored() is Ok && final(self)@
                    == (FileModel {
                    called_functions: Some(old(self)@.explored()->Ok_0),
                    ..old(self)@
                }),
                Err(e) => old(self)@.explored() == Err::<Seq<u32>, Error>(e),
            },
    {
        let ghost before = self@;
        let ghost entry = *self;
        self.explore_publics()?;
        let ghost middle = *self;
        proof {
            middle.lemma_model_with_calls(&entry);
            lemma_explore_same_code(
                before,
                middle@,
                middle.called_addresses(),
                0,
            );
        }
        self.explore_called()?;
        proof {
            self.lemma_model_with_calls(&entry);
        }
        Ok(())
    }

    /// Whether a public function or one that disassembly found is at `addr`.
    pub fn is_function_at_address(&self, addr: i32) -> (r: bool)
        ensures
            r == known_function(
                self.public_addresses(),
                self.called_addresses(),
                unsigned32(addr),
            ),
    {
        is_known(&self.publics, &self.called_functions, as_unsigned(addr))
    }

    /// The name of the function at `addr`: that of the first public function
    /// there, else that of the first function there that disassembly found,
    /// else `unknown`.
    #[verifier::loop_isolation(false)]
    pub fn find_function_name(&self, addr: i32) -> (r: String)
        ensures
            r@ == function_name(
                match self.publics {
                    Some(t) => rows_of(t@),
                    None => Seq::empty(),
                },
                match self.called_functions {
                    Some(t) => t@.map_values(|e: crate::v1types::CalledFunctionEntry| e.name@),
                    None => Seq::empty(),
                },
                self.called_addresses(),
                unsigned32(addr),
            ),
    {
        let wanted = as_unsigned(addr);
        match &self.publics {
            Some(t) => {
                let rows = t.entries_ref();
                let ghost shown = rows_of(rows@);
                let mut i: usize = 0;
                while i < rows.len()
                    invariant
                        i <= rows@.len(),
                        first_named(shown, wanted, 0) == first_named(shown, wanted, i as int),
                    decreases rows@.len() - i,
                {
                    if rows[i].address == wanted {
                        return rows[i].name.clone();
                    }
                    i = i + 1;
                }
            },
            None => {},
        }
        match &self.called_functions {
            Some(t) => {
                let rows = t.entries_ref();
                let ghost addresses = called_addresses(rows@);
                let mut i: usize = 0;
                while i < rows.len()
                    invariant
                        i <= rows@.len(),
                        first_index(addresses, wanted, 0) == first_index(
                            addresses,
                            wanted,
                            i as int,
                        ),
                    decreases rows@.len() - i,
                {
                    if rows[i].address == wanted {
                        return rows[i].name.clone();
                    }
                    i = i + 1;
                }
            },
            None => {},
        }
        String::from_str("unknown")
    }

    /// The name of the global variable at `addr`: the name that the name
    /// table has for the first global there. There is none where the
    /// container has no such global, no name table, or no name at the offset
    /// that the global gives.
    pub fn find_global_name(&mut self, addr: i32) -> (r: Option<String>)
        requires
            old(self).wf(),
        ensures
            final(self).wf(),
            final(self)@ == old(self)@,
            *final(self) == (SMXFile { names: final(self).names, ..*old(self) }),
            text_of_name(r) == old(self)@.global_name(addr),
    {
        proof {
            self.lemma_model_tables();
        }
        let found = match &self.debug_globals {
            Some(t) => t.find_global(addr),
            None => None,
        };
        match found {
            Some(symbol) => self.name_of(symbol.name_offset),
            None => None,
        }
    }

    /// The name of the local variable at `addr` that is in scope at
    /// `code_addr`: the name that the name table has for it. There is none
    /// where the container has no such local, no name table, or no name at
    /// the offset that the local gives.
    pub fn find_local_name(&mut self, code_addr: i32, addr: i32) -> (r: Option<String>)
        requires
            old(self).wf(),
        ensures
            final(self).wf(),
            final(self)@ == old(self)@,
            *final(self) == (SMXFile { names: final(self).names, ..*old(self) }),
            text_of_name(r) == old(self)@.local_name(code_addr, addr),
    {
        proof {
            self.lemma_model_tables();
        }
        let found = match &self.debug_locals {
            Some(t) => t.find_local(code_addr, addr),
            None => None,
        };
        match found {
            Some(symbol) => self.name_of(symbol.name_offset),
            None => None,
        }
    }

    /// The name at `offset` of the name table, where there is one.
    fn name_of(&mut self, offset: i32) -> (r: Option<String>)
        requires
            old(self).wf(),
        ensures
            final(self).wf(),
            final(self)@ == old(self)@,
            *final(self) == (SMXFile { names: final(self).names, ..*old(self) }),
            text_of_name(r) == old(self)@.name_text(offset),
    {
        let ghost entry = *self;
        proof {
            self.lemma_model_agrees();
        }
        let r = match &mut self.names {
            Some(names) => match names.string_at(offset) {
                Ok(name) => Some(name),
                Err(_) => None,
            },
            None => None,
        };
        proof {
            self.lemma_model_with_names(&entry);
        }
        r
    }

    /// Loads a container from `data`.
    pub fn new(data: &[u8]) -> (r: Result<SMXFile, Error>)
        ensures
            filed(r) == load_file(data@, zlib_inflated(compressed_tail(data@))),
            r matches Ok(f) ==> f.wf(),
    {
        let header = SMXHeader::new(data)?;
        Self::from_header(header)
    }
}

/// Where disassembling the public functions fails at function `k`, it fails
/// for every longer table.
pub proof fn lemma_after_publics_fails(m: FileModel, called: Seq<u32>, k: nat, count: nat)
    requires
        k <= count,
        m.after_publics(called, k) is Err,
    ensures
        m.after_publics(called, count) == m.after_publics(called, k),
    decreases count,
{
    if count > k {
        lemma_after_publics_fails(m, called, k, (count - 1) as nat);
    }
}

/// A container without code has no procedure to disassemble.
pub proof fn lemma_no_code(m: FileModel, called: Seq<u32>, k: nat)
    requires
        m.codev1 is None,
        k > 0,
    ensures
        m.after_publics(called, k) == Err::<Seq<u32>, Error>(eof()),
    decreases k,
{
    if k > 1 {
        lemma_no_code(m, called, (k - 1) as nat);
    } else {
        assert(m.after_publics(called, 0) == Ok::<Seq<u32>, Error>(called));
    }
}

/// What is found from the functions that were found depends on the public
/// functions and on the code only.
pub proof fn lemma_explore_same_code(m: FileModel, n: FileModel, called: Seq<u32>, i: nat)
    requires
        m.publics == n.publics,
        m.codev1 == n.codev1,
        m.header == n.header,
    ensures
        m.after_called(called, i) == n.after_called(called, i),
    decreases usize::MAX - i,
{
    if i < called.len() && i < usize::MAX {
        match m.procedure_at(signed32(called[i as int])) {
            Ok(instructions) => {
                lemma_explore_same_code(
                    m,
                    n,
                    with_calls(m.public_addresses(), called, instructions),
                    i + 1,
                );
            },
            Err(e) => {},
        }
    }
}

} // verus!
