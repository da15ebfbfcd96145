//! Runtime type information: the list tables that name enums, methods,
//! natives, typedefs, typesets, enum structs, classes and fields, and the
//! decoder that turns an encoded type into text.

use vstd::prelude::*;
use std::rc::Rc;
use crate::bytes::{i16_at, i32_at, u32_at, ByteReader};
use crate::errors::{eof, Error};
use crate::headers::{SMXHeader, SectionEntry};
use crate::rows::{collect, lemma_collect_fails};
use crate::sections::{name_at, section_bytes, BaseSection, SMXNameTable};
pub use crate::typetext::{SMXRTTIData, TypeBuilder, CB};

verus! {

/// The three numbers that every list table starts with.
#[derive(Debug, Clone, Copy, PartialEq, Eq)]
pub struct ListHeader {
    pub header_size: u32,
    pub row_size: u32,
    pub row_count: u32,
}

/// Size of the list header; the rows follow it.
pub const LIST_HEADER_SIZE: usize = 12;

/// The list header at the start of `d`.
pub open spec fn list_header(d: Seq<u8>) -> Result<ListHeader, Error> {
    if d.len() < 12 {
        Err(eof())
    } else {
        Ok(
            ListHeader {
                header_size: u32_at(d, 0),
                row_size: u32_at(d, 4),
                row_count: u32_at(d, 8),
            },
        )
    }
}

/// A section that starts with a list header.
#[derive(Debug)]
pub struct SMXRTTIListTable {
    base: BaseSection,
    header_size: u32,
    row_size: u32,
    row_count: u32,
}

impl View for SMXRTTIListTable {
    type V = ListHeader;

    closed spec fn view(&self) -> ListHeader {
        ListHeader {
            header_size: self.header_size,
            row_size: self.row_size,
            row_count: self.row_count,
        }
    }
}

impl SMXRTTIListTable {
    /// The section of the table.
    pub closed spec fn base(&self) -> BaseSection {
        self.base
    }

    /// A table over `section` whose header has not been read yet.
    pub fn new(header: Rc<SMXHeader>, section: SectionEntry) -> (r: Self)
        ensures
            r@ == (ListHeader { header_size: 0, row_size: 0, row_count: 0 }),
            r.base().header == header,
            r.base().section == section,
    {
        SMXRTTIListTable {
            base: BaseSection::new(header, section),
            header_size: 0,
            row_size: 0,
            row_count: 0,
        }
    }

    /// Reads the list header at the position of `data`. Where that fails
    /// the table keeps the header it had.
    pub fn init(&mut self, data: &mut ByteReader) -> (r: Result<(), Error>)
        ensures
            final(data).data@ == old(data).data@,
            final(self).base() == old(self).base(),
            match r {
                Ok(_) => list_header(old(data).data@.skip(old(data).pos as int)) == Ok::<
                    ListHeader,
                    Error,
                >(final(self)@) && final(data).pos == old(data).pos + 12,
                Err(e) => e == eof() && !old(data).has(12) && final(self)@ == old(self)@,
            },
    {
        let ghost d = data.data@;
        let ghost p = data.pos as int;
        let header_size = data.read_u32()?;
        let row_size = data.read_u32()?;
        let row_count = data.read_u32()?;
        self.header_size = header_size;
        self.row_size = row_size;
        self.row_count = row_count;
        proof {
            let rest = d.skip(p);
            assert(u32_at(rest, 0) == u32_at(d, p));
            assert(u32_at(rest, 4) == u32_at(d, p + 4));
            assert(u32_at(rest, 8) == u32_at(d, p + 8));
        }
        Ok(())
    }

    pub fn header_size(&self) -> (r: u32)
        ensures
            r == self@.header_size,
    {
        self.header_size
    }

    pub fn row_size(&self) -> (r: u32)
        ensures
            r == self@.row_size,
    {
        self.row_size
    }

    pub fn row_count(&self) -> (r: u32)
        ensures
            r == self@.row_count,
    {
        self.row_count
    }
}

/// A row of a list table whose name is looked up in the name table.
pub trait ListRow: Sized + View {
    /// The distance from one row to the next.
    spec fn width() -> int;

    /// What the row at `at` of `d` holds, with names from `pool`.
    spec fn row_at(d: Seq<u8>, pool: Seq<u8>, at: int) -> Result<Self::V, Error>;

    /// No row starts at or behind the end of the section.
    proof fn lemma_past_end(d: Seq<u8>, pool: Seq<u8>, at: int)
        requires
            at >= d.len(),
            at >= 0,
        ensures
            Self::row_at(d, pool, at) == Err::<Self::V, Error>(eof()),
    ;

    /// Reads the row at the position of `rd` and moves to the next row, or
    /// to the end of the buffer where that comes first.
    fn read(rd: &mut ByteReader, names: &mut SMXNameTable) -> (r: Result<Self, Error>)
        requires
            old(names).wf(),
        ensures
            final(names).wf(),
            final(names).pool() == old(names).pool(),
            final(names).section() == old(names).section(),
            final(rd).data@ == old(rd).data@,
            match r {
                Ok(row) => Self::row_at(old(rd).data@, old(names).pool(), old(rd).pos as int)
                    == Ok::<Self::V, Error>(row@) && (final(rd).pos == old(rd).pos + Self::width()
                    || (final(rd).pos >= old(rd).data@.len() && old(rd).data@.len() < old(rd).pos
                    + Self::width())),
                Err(e) => Self::row_at(old(rd).data@, old(names).pool(), old(rd).pos as int)
                    == Err::<Self::V, Error>(e),
            },
    ;
}

/// Row `k` of the list table in `d`.
pub open spec fn list_row<T: ListRow>(d: Seq<u8>, pool: Seq<u8>) -> spec_fn(int) -> Result<
    T::V,
    Error,
> {
    |k: int| T::row_at(d, pool, 12 + T::width() * k)
}

/// The list table in `d`: its header, and as many rows as the header
/// counts, read one after the other from behind the header.
pub open spec fn list_rows<T: ListRow>(d: Seq<u8>, pool: Seq<u8>) -> Result<
    (ListHeader, Seq<T::V>),
    Error,
> {
    match list_header(d) {
        Err(e) => Err(e),
        Ok(h) => match collect(list_row::<T>(d, pool), h.row_count as nat) {
            Err(e) => Err(e),
            Ok(rows) => Ok((h, rows)),
        },
    }
}

/// The views of the rows `v`.
pub open spec fn row_views<T: View>(v: Seq<T>) -> Seq<T::V> {
    v.map_values(|r: T| r@)
}

/// The outcome of reading a list table, with rows as their views.
pub open spec fn list_read<T: ListRow>(r: Result<(SMXRTTIListTable, Vec<T>), Error>) -> Result<
    (ListHeader, Seq<T::V>),
    Error,
> {
    match r {
        Ok((t, v)) => Ok((t@, row_views(v@))),
        Err(e) => Err(e),
    }
}

/// Reads the list table of `section`, with names from `names`.
pub fn read_list<T: ListRow>(
    header: Rc<SMXHeader>,
    section: SectionEntry,
    names: &mut SMXNameTable,
) -> (r: Result<(SMXRTTIListTable, Vec<T>), Error>)
    requires
        section@.within(header.data@.len()),
        old(names).wf(),
        T::width() > 0,
    ensures
        final(names).wf(),
        final(names).pool() == old(names).pool(),
        final(names).section() == old(names).section(),
        list_read(r) == list_rows::<T>(section_bytes(header.data@, section@), old(names).pool()),
        r matches Ok((t, v)) ==> v@.len() == t@.row_count && t.base().header == header
            && t.base().section == section,
{
    let base = BaseSection::new(header, section);
    let bytes = base.get_data();
    let mut table = SMXRTTIListTable { base, header_size: 0, row_size: 0, row_count: 0 };
    let data = bytes.as_slice();
    let mut rd = ByteReader::new(data);
    assert(data@.skip(0) =~= data@);
    table.init(&mut rd)?;
    let count = table.row_count;
    let ghost pool = names.pool();
    let ghost row = list_row::<T>(data@, pool);
    let mut rows: Vec<T> = Vec::new();
    let mut k: u32 = 0;
    assert(row_views(rows@) =~= Seq::<T::V>::empty());
    while k < count
        invariant
            k <= count,
            T::width() > 0,
            count == table@.row_count,
            list_header(data@) == Ok::<ListHeader, Error>(table@),
            data@ == section_bytes(header.data@, section@),
            names.wf(),
            names.pool() == pool,
            pool == old(names).pool(),
            names.section() == old(names).section(),
            row == list_row::<T>(data@, pool),
            rd.data@ == data@,
            rd.pos == 12 + T::width() * k || (rd.pos >= data@.len() && data@.len() < 12
                + T::width() * k),
            rows@.len() == k,
            collect(row, k as nat) == Ok::<Seq<T::V>, Error>(row_views(rows@)),
        decreases count - k,
    {
        let ghost before = row_views(rows@);
        proof {
            assert(T::width() * k >= 0) by (nonlinear_arith)
                requires
                    T::width() > 0,
                    k >= 0,
            ;
            assert(T::width() * (k + 1) == T::width() * k + T::width()) by (nonlinear_arith);
            if rd.pos != 12 + T::width() * k {
                T::lemma_past_end(data@, pool, 12 + T::width() * k);
                T::lemma_past_end(data@, pool, rd.pos as int);
            }
        }
        match T::read(&mut rd, names) {
            Ok(r) => {
                rows.push(r);
            },
            Err(e) => {
                proof {
                    lemma_collect_fails(row, k as nat, count as nat);
                }
                return Err(e);
            },
        }
        proof {
            assert(row_views(rows@) =~= before.push(row(k as int)->Ok_0));
        }
        k = k + 1;
    }
    Ok((table, rows))
}


/// The rows of the list table in `d`, without its header.
pub open spec fn table_rows<T: ListRow>(d: Seq<u8>, pool: Seq<u8>) -> Result<Seq<T::V>, Error> {
    match list_rows::<T>(d, pool) {
        Err(e) => Err(e),
        Ok((_, rows)) => Ok(rows),
    }
}

/// A row of the `rtti.enums` section: the name of an enum, followed by
/// twelve reserved bytes.
#[derive(Debug)]
pub struct RTTIEnum {
    pub name: String,
}

impl View for RTTIEnum {
    type V = Seq<char>;

    open spec fn view(&self) -> Seq<char> {
        self.name@
    }
}

impl Clone for RTTIEnum {
    fn clone(&self) -> (r: Self)
        ensures
            r == *self,
    {
        RTTIEnum { name: self.name.clone() }
    }
}

impl ListRow for RTTIEnum {
    open spec fn width() -> int {
        16
    }

    open spec fn row_at(d: Seq<u8>, pool: Seq<u8>, at: int) -> Result<Seq<char>, Error> {
        if d.len() < at + 4 {
            Err(eof())
        } else {
            name_at(pool, i32_at(d, at) as int)
        }
    }

    proof fn lemma_past_end(d: Seq<u8>, pool: Seq<u8>, at: int) {
    }

    fn read(rd: &mut ByteReader, names: &mut SMXNameTable) -> (r: Result<Self, Error>) {
        let index = rd.read_i32()?;
        let name = names.string_at(index)?;
        rd.skip(12);
        Ok(RTTIEnum { name })
    }
}

/// The `rtti.enums` table: the names of the enums.
#[derive(Debug)]
pub struct SMXRTTIEnumTable {
    enums: Vec<String>,
}

impl View for SMXRTTIEnumTable {
    type V = Seq<String>;

    closed spec fn view(&self) -> Seq<String> {
        self.enums@
    }
}

/// The texts of the strings `v`.
pub open spec fn texts(v: Seq<String>) -> Seq<Seq<char>> {
    v.map_values(|s: String| s@)
}

impl SMXRTTIEnumTable {
    /// Reads the `rtti.enums` section.
    pub fn new(header: Rc<SMXHeader>, section: SectionEntry, names: &mut SMXNameTable) -> (r:
        Result<Self, Error>)
        requires
            section@.within(header.data@.len()),
            old(names).wf(),
        ensures
            final(names).wf(),
            final(names).pool() == old(names).pool(),
            final(names).section() == old(names).section(),
            match r {
                Ok(t) => table_rows::<RTTIEnum>(
                    section_bytes(header.data@, section@),
                    old(names).pool(),
                ) == Ok::<Seq<Seq<char>>, Error>(texts(t@)),
                Err(e) => table_rows::<RTTIEnum>(
                    section_bytes(header.data@, section@),
                    old(names).pool(),
                ) == Err::<Seq<Seq<char>>, Error>(e),
            },
    {
        let (_, rows) = read_list::<RTTIEnum>(header, section, names)?;
        let mut enums: Vec<String> = Vec::new();
        let mut i: usize = 0;
        while i < rows.len()
            invariant
                i <= rows@.len(),
                enums@.len() == i,
                forall|j: int| 0 <= j < i ==> (#[trigger] enums@[j])@ == rows@[j]@,
            decreases rows@.len() - i,
        {
            enums.push(rows[i].name.clone());
            i = i + 1;
        }
        assert(texts(enums@) =~= row_views(rows@));
        Ok(SMXRTTIEnumTable { enums })
    }

    /// A copy of the names.
    pub fn enums(&self) -> (r: Vec<String>)
        ensures
            r@ == self@,
    {
        let r = self.enums.clone();
        assert(r@ =~= self.enums@);
        r
    }
}

/// A row of the `rtti.methods` section: a method, the range of its code, and
/// the offset of its signature in `rtti.data`.
#[derive(Debug)]
pub struct RTTIMethod {
    pub name: String,
    pub pcode_start: i32,
    pub pcode_end: i32,
    pub signature: i32,
}

/// RTTIMethod with its name as text.
pub struct RTTIMethodModel {
    pub name: Seq<char>,
    pub pcode_start: i32,
    pub pcode_end: i32,
    pub signature: i32,
}

impl View for RTTIMethod {
    type V = RTTIMethodModel;

    open spec fn view(&self) -> RTTIMethodModel {
        RTTIMethodModel {
            name: self.name@,
            pcode_start: self.pcode_start,
            pcode_end: self.pcode_end,
            signature: self.signature,
        }
    }
}

impl Clone for RTTIMethod {
    fn clone(&self) -> (r: Self)
        ensures
            r == *self,
    {
        RTTIMethod {
            name: self.name.clone(),
            pcode_start: self.pcode_start,
            pcode_end: self.pcode_end,
            signature: self.signature,
        }
    }
}

impl ListRow for RTTIMethod {
    open spec fn width() -> int {
        16
    }

    open spec fn row_at(d: Seq<u8>, pool: Seq<u8>, at: int) -> Result<RTTIMethodModel, Error> {
        if d.len() < at + 4 {
            Err(eof())
        } else {
            match name_at(pool, i32_at(d, at) as int) {
                Err(e) => Err(e),
                Ok(name) => if d.len() < at + 16 {
                    Err(eof())
                } else {
                    Ok(
                        RTTIMethodModel {
                            name,
                        pcode_start: i32_at(d, at + 4),
                        pcode_end: i32_at(d, at + 8),
                        signature: i32_at(d, at + 12),
                        },
                    )
                },
            }
        }
    }

    proof fn lemma_past_end(d: Seq<u8>, pool: Seq<u8>, at: int) {
    }

    fn read(rd: &mut ByteReader, names: &mut SMXNameTable) -> (r: Result<Self, Error>) {
        let index = rd.read_i32()?;
        let name = names.string_at(index)?;
        let pcode_start = rd.read_i32()?;
        let pcode_end = rd.read_i32()?;
        let signature = rd.read_i32()?;
        Ok(RTTIMethod { name, pcode_start, pcode_end, signature })
    }
}

/// The `rtti.methods` table.
#[derive(Debug)]
pub struct SMXRTTIMethodTable {
    methods: Vec<RTTIMethod>,
}

impl View for SMXRTTIMethodTable {
    type V = Seq<RTTIMethod>;

    closed spec fn view(&self) -> Seq<RTTIMethod> {
        self.methods@
    }
}

impl SMXRTTIMethodTable {
    /// Reads the `rtti.methods` section.
    pub fn new(header: Rc<SMXHeader>, section: SectionEntry, names: &mut SMXNameTable) -> (r:
        Result<Self, Error>)
        requires
            section@.within(header.data@.len()),
            old(names).wf(),
        ensures
            final(names).wf(),
            final(names).pool() == old(names).pool(),
            final(names).section() == old(names).section(),
            match r {
                Ok(t) => table_rows::<RTTIMethod>(
                    section_bytes(header.data@, section@),
                    old(names).pool(),
                ) == Ok::<Seq<RTTIMethodModel>, Error>(row_views(t@)),
                Err(e) => table_rows::<RTTIMethod>(
                    section_bytes(header.data@, section@),
                    old(names).pool(),
                ) == Err::<Seq<RTTIMethodModel>, Error>(e),
            },
    {
        let (_, methods) = read_list::<RTTIMethod>(header, section, names)?;
        Ok(SMXRTTIMethodTable { methods })
    }

    /// A copy of the rows.
    pub fn methods(&self) -> (r: Vec<RTTIMethod>)
        ensures
            r@ == self@,
    {
        let r = self.methods.clone();
        assert(r@ =~= self.methods@);
        r
    }

    /// The rows.
    pub fn methods_ref(&self) -> (r: &Vec<RTTIMethod>)
        ensures
            r@ == self@,
    {
        &self.methods
    }
}

/// A row of the `rtti.natives` section: a native and the offset of its
/// signature in `rtti.data`.
#[derive(Debug)]
pub struct RTTINative {
    pub name: String,
    pub signature: i32,
}

/// RTTINative with its name as text.
pub struct RTTINativeModel {
    pub name: Seq<char>,
    pub signature: i32,
}

impl View for RTTINative {
    type V = RTTINativeModel;

    open spec fn view(&self) -> RTTINativeModel {
        RTTINativeModel {
            name: self.name@,
            signature: self.signature,
        }
    }
}

impl Clone for RTTINative {
    fn clone(&self) -> (r: Self)
        ensures
            r == *self,
    {
        RTTINative {
            name: self.name.clone(),
            signature: self.signature,
        }
    }
}

impl ListRow for RTTINative {
    open spec fn width() -> int {
        8
    }

    open spec fn row_at(d: Seq<u8>, pool: Seq<u8>, at: int) -> Result<RTTINativeModel, Error> {
        if d.len() < at + 4 {
            Err(eof())
        } else {
            match name_at(pool, i32_at(d, at) as int) {
                Err(e) => Err(e),
                Ok(name) => if d.len() < at + 8 {
                    Err(eof())
                } else {
                    Ok(
                        RTTINativeModel {
                            name,
                        signature: i32_at(d, at + 4),
                        },
                    )
                },
            }
        }
    }

    proof fn lemma_past_end(d: Seq<u8>, pool: Seq<u8>, at: int) {
    }

    fn read(rd: &mut ByteReader, names: &mut SMXNameTable) -> (r: Result<Self, Error>) {
        let index = rd.read_i32()?;
        let name = names.string_at(index)?;
        let signature = rd.read_i32()?;
        Ok(RTTINative { name, signature })
    }
}

/// The `rtti.natives` table.
#[derive(Debug)]
pub struct SMXRTTINativeTable {
    natives: Vec<RTTINative>,
}

impl View for SMXRTTINativeTable {
    type V = Seq<RTTINative>;

    closed spec fn view(&self) -> Seq<RTTINative> {
        self.natives@
    }
}

impl SMXRTTINativeTable {
    /// Reads the `rtti.natives` section.
    pub fn new(header: Rc<SMXHeader>, section: SectionEntry, names: &mut SMXNameTable) -> (r:
        Result<Self, Error>)
        requires
            section@.within(header.data@.len()),
            old(names).wf(),
        ensures
            final(names).wf(),
            final(names).pool() == old(names).pool(),
            final(names).section() == old(names).section(),
            match r {
                Ok(t) => table_rows::<RTTINative>(
                    section_bytes(header.data@, section@),
                    old(names).pool(),
                ) == Ok::<Seq<RTTINativeModel>, Error>(row_views(t@)),
                Err(e) => table_rows::<RTTINative>(
                    section_bytes(header.data@, section@),
                    old(names).pool(),
                ) == Err::<Seq<RTTINativeModel>, Error>(e),
            },
    {
        let (_, natives) = read_list::<RTTINative>(header, section, names)?;
        Ok(SMXRTTINativeTable { natives })
    }

    /// A copy of the rows.
    pub fn natives(&self) -> (r: Vec<RTTINative>)
        ensures
            r@ == self@,
    {
        let r = self.natives.clone();
        assert(r@ =~= self.natives@);
        r
    }
}

/// A row of the `rtti.typedefs` section: a typedef and the type it names.
#[derive(Debug)]
pub struct RTTITypedef {
    pub name: String,
    pub type_id: i32,
}

/// RTTITypedef with its name as text.
pub struct RTTITypedefModel {
    pub name: Seq<char>,
    pub type_id: i32,
}

impl View for RTTITypedef {
    type V = RTTITypedefModel;

    open spec fn view(&self) -> RTTITypedefModel {
        RTTITypedefModel {
            name: self.name@,
            type_id: self.type_id,
        }
    }
}

impl Clone for RTTITypedef {
    fn clone(&self) -> (r: Self)
        ensures
            r == *self,
    {
        RTTITypedef {
            name: self.name.clone(),
            type_id: self.type_id,
        }
    }
}

impl ListRow for RTTITypedef {
    open spec fn width() -> int {
        8
    }

    open spec fn row_at(d: Seq<u8>, pool: Seq<u8>, at: int) -> Result<RTTITypedefModel, Error> {
        if d.len() < at + 4 {
            Err(eof())
        } else {
            match name_at(pool, i32_at(d, at) as int) {
                Err(e) => Err(e),
                Ok(name) => if d.len() < at + 8 {
                    Err(eof())
                } else {
                    Ok(
                        RTTITypedefModel {
                            name,
                        type_id: i32_at(d, at + 4),
                        },
                    )
                },
            }
        }
    }

    proof fn lemma_past_end(d: Seq<u8>, pool: Seq<u8>, at: int) {
    }

    fn read(rd: &mut ByteReader, names: &mut SMXNameTable) -> (r: Result<Self, Error>) {
        let index = rd.read_i32()?;
        let name = names.string_at(index)?;
        let type_id = rd.read_i32()?;
        Ok(RTTITypedef { name, type_id })
    }
}

/// The `rtti.typedefs` table.
#[derive(Debug)]
pub struct SMXRTTITypedefTable {
    typedefs: Vec<RTTITypedef>,
}

impl View for SMXRTTITypedefTable {
    type V = Seq<RTTITypedef>;

    closed spec fn view(&self) -> Seq<RTTITypedef> {
        self.typedefs@
    }
}

impl SMXRTTITypedefTable {
    /// Reads the `rtti.typedefs` section.
    pub fn new(header: Rc<SMXHeader>, section: SectionEntry, names: &mut SMXNameTable) -> (r:
        Result<Self, Error>)
        requires
            section@.within(header.data@.len()),
            old(names).wf(),
        ensures
            final(names).wf(),
            final(names).pool() == old(names).pool(),
            final(names).section() == old(names).section(),
            match r {
                Ok(t) => table_rows::<RTTITypedef>(
                    section_bytes(header.data@, section@),
                    old(names).pool(),
                ) == Ok::<Seq<RTTITypedefModel>, Error>(row_views(t@)),
                Err(e) => table_rows::<RTTITypedef>(
                    section_bytes(header.data@, section@),
                    old(names).pool(),
                ) == Err::<Seq<RTTITypedefModel>, Error>(e),
            },
    {
        let (_, typedefs) = read_list::<RTTITypedef>(header, section, names)?;
        Ok(SMXRTTITypedefTable { typedefs })
    }

    /// A copy of the rows.
    pub fn typedefs(&self) -> (r: Vec<RTTITypedef>)
        ensures
            r@ == self@,
    {
        let r = self.typedefs.clone();
        assert(r@ =~= self.typedefs@);
        r
    }
}

/// A row of the `rtti.typesets` section: a typeset and the offset of its
/// signature in `rtti.data`.
#[derive(Debug)]
pub struct RTTITypeset {
    pub name: String,
    pub signature: i32,
}

/// RTTITypeset with its name as text.
pub struct RTTITypesetModel {
    pub name: Seq<char>,
    pub signature: i32,
}

impl View for RTTITypeset {
    type V = RTTITypesetModel;

    open spec fn view(&self) -> RTTITypesetModel {
        RTTITypesetModel {
            name: self.name@,
            signature: self.signature,
        }
    }
}

impl Clone for RTTITypeset {
    fn clone(&self) -> (r: Self)
        ensures
            r == *self,
    {
        RTTITypeset {
            name: self.name.clone(),
            signature: self.signature,
        }
    }
}

impl ListRow for RTTITypeset {
    open spec fn width() -> int {
        8
    }

    open spec fn row_at(d: Seq<u8>, pool: Seq<u8>, at: int) -> Result<RTTITypesetModel, Error> {
        if d.len() < at + 4 {
            Err(eof())
        } else {
            match name_at(pool, i32_at(d, at) as int) {
                Err(e) => Err(e),
                Ok(name) => if d.len() < at + 8 {
                    Err(eof())
                } else {
                    Ok(
                        RTTITypesetModel {
                            name,
                        signature: i32_at(d, at + 4),
                        },
                    )
                },
            }
        }
    }

    proof fn lemma_past_end(d: Seq<u8>, pool: Seq<u8>, at: int) {
    }

    fn read(rd: &mut ByteReader, names: &mut SMXNameTable) -> (r: Result<Self, Error>) {
        let index = rd.read_i32()?;
        let name = names.string_at(index)?;
        let signature = rd.read_i32()?;
        Ok(RTTITypeset { name, signature })
    }
}

/// The `rtti.typesets` table.
#[derive(Debug)]
pub struct SMXRTTITypesetTable {
    typesets: Vec<RTTITypeset>,
}

impl View for SMXRTTITypesetTable {
    type V = Seq<RTTITypeset>;

    closed spec fn view(&self) -> Seq<RTTITypeset> {
        self.typesets@
    }
}

impl SMXRTTITypesetTable {
    /// Reads the `rtti.typesets` section.
    pub fn new(header: Rc<SMXHeader>, section: SectionEntry, names: &mut SMXNameTable) -> (r:
        Result<Self, Error>)
        requires
            section@.within(header.data@.len()),
            old(names).wf(),
        ensures
            final(names).wf(),
            final(names).pool() == old(names).pool(),
            final(names).section() == old(names).section(),
            match r {
                Ok(t) => table_rows::<RTTITypeset>(
                    section_bytes(header.data@, section@),
                    old(names).pool(),
                ) == Ok::<Seq<RTTITypesetModel>, Error>(row_views(t@)),
                Err(e) => table_rows::<RTTITypeset>(
                    section_bytes(header.data@, section@),
                    old(names).pool(),
                ) == Err::<Seq<RTTITypesetModel>, Error>(e),
            },
    {
        let (_, typesets) = read_list::<RTTITypeset>(header, section, names)?;
        Ok(SMXRTTITypesetTable { typesets })
    }

    /// A copy of the rows.
    pub fn typesets(&self) -> (r: Vec<RTTITypeset>)
        ensures
            r@ == self@,
    {
        let r = self.typesets.clone();
        assert(r@ =~= self.typesets@);
        r
    }
}

/// A row of the `rtti.enumstructs` section.
#[derive(Debug)]
pub struct RTTIEnumStruct {
    pub name_offset: i32,
    pub first_field: i32,
    pub size: i32,
    pub name: String,
}

/// RTTIEnumStruct with its name as text.
pub struct RTTIEnumStructModel {
    pub name_offset: i32,
    pub first_field: i32,
    pub size: i32,
    pub name: Seq<char>,
}

impl View for RTTIEnumStruct {
    type V = RTTIEnumStructModel;

    open spec fn view(&self) -> RTTIEnumStructModel {
        RTTIEnumStructModel {
            name_offset: self.name_offset,
            first_field: self.first_field,
            size: self.size,
            name: self.name@,
        }
    }
}

impl Clone for RTTIEnumStruct {
    fn clone(&self) -> (r: Self)
        ensures
            r == *self,
    {
        RTTIEnumStruct {
            name_offset: self.name_offset,
            first_field: self.first_field,
            size: self.size,
            name: self.name.clone(),
        }
    }
}

impl ListRow for RTTIEnumStruct {
    open spec fn width() -> int {
        12
    }

    open spec fn row_at(d: Seq<u8>, pool: Seq<u8>, at: int) -> Result<RTTIEnumStructModel, Error> {
        if d.len() < at + 12 {
            Err(eof())
        } else {
            match name_at(pool, i32_at(d, at + 0) as int) {
                Err(e) => Err(e),
                Ok(name) => Ok(
                    RTTIEnumStructModel {
                        name_offset: i32_at(d, at),
                        first_field: i32_at(d, at + 4),
                        size: i32_at(d, at + 8),
                        name,
                    },
                ),
            }
        }
    }

    proof fn lemma_past_end(d: Seq<u8>, pool: Seq<u8>, at: int) {
    }

    fn read(rd: &mut ByteReader, names: &mut SMXNameTable) -> (r: Result<Self, Error>) {
        let name_offset = rd.read_i32()?;
        let first_field = rd.read_i32()?;
        let size = rd.read_i32()?;
        let name = names.string_at(name_offset)?;
        Ok(RTTIEnumStruct { name_offset, first_field, size, name })
    }
}

/// The `rtti.enumstructs` table.
#[derive(Debug)]
pub struct SMXRTTIEnumStructTable {
    entries: Vec<RTTIEnumStruct>,
}

impl View for SMXRTTIEnumStructTable {
    type V = Seq<RTTIEnumStruct>;

    closed spec fn view(&self) -> Seq<RTTIEnumStruct> {
        self.entries@
    }
}

impl SMXRTTIEnumStructTable {
    /// Reads the `rtti.enumstructs` section.
    pub fn new(header: Rc<SMXHeader>, section: SectionEntry, names: &mut SMXNameTable) -> (r:
        Result<Self, Error>)
        requires
            section@.within(header.data@.len()),
            old(names).wf(),
        ensures
            final(names).wf(),
            final(names).pool() == old(names).pool(),
            final(names).section() == old(names).section(),
            match r {
                Ok(t) => table_rows::<RTTIEnumStruct>(
                    section_bytes(header.data@, section@),
                    old(names).pool(),
                ) == Ok::<Seq<RTTIEnumStructModel>, Error>(row_views(t@)),
                Err(e) => table_rows::<RTTIEnumStruct>(
                    section_bytes(header.data@, section@),
                    old(names).pool(),
                ) == Err::<Seq<RTTIEnumStructModel>, Error>(e),
            },
    {
        let (_, entries) = read_list::<RTTIEnumStruct>(header, section, names)?;
        Ok(SMXRTTIEnumStructTable { entries })
    }

    /// A copy of the rows.
    pub fn entries(&self) -> (r: Vec<RTTIEnumStruct>)
        ensures
            r@ == self@,
    {
        let r = self.entries.clone();
        assert(r@ =~= self.entries@);
        r
    }
}

/// A row of the `rtti.enumstruct_fields` section.
#[derive(Debug)]
pub struct RTTIEnumStructField {
    pub name_offset: i32,
    pub type_id: i32,
    pub offset: i32,
    pub name: String,
}

/// RTTIEnumStructField with its name as text.
pub struct RTTIEnumStructFieldModel {
    pub name_offset: i32,
    pub type_id: i32,
    pub offset: i32,
    pub name: Seq<char>,
}

impl View for RTTIEnumStructField {
    type V = RTTIEnumStructFieldModel;

    open spec fn view(&self) -> RTTIEnumStructFieldModel {
        RTTIEnumStructFieldModel {
            name_offset: self.name_offset,
            type_id: self.type_id,
            offset: self.offset,
            name: self.name@,
        }
    }
}

impl Clone for RTTIEnumStructField {
    fn clone(&self) -> (r: Self)
        ensures
            r == *self,
    {
        RTTIEnumStructField {
            name_offset: self.name_offset,
            type_id: self.type_id,
            offset: self.offset,
            name: self.name.clone(),
        }
    }
}

impl ListRow for RTTIEnumStructField {
    open spec fn width() -> int {
        12
    }

    open spec fn row_at(d: Seq<u8>, pool: Seq<u8>, at: int) -> Result<RTTIEnumStructFieldModel, Error> {
        if d.len() < at + 12 {
            Err(eof())
        } else {
            match name_at(pool, i32_at(d, at + 0) as int) {
                Err(e) => Err(e),
                Ok(name) => Ok(
                    RTTIEnumStructFieldModel {
                        name_offset: i32_at(d, at),
                        type_id: i32_at(d, at + 4),
                        offset: i32_at(d, at + 8),
                        name,
                    },
                ),
            }
        }
    }

    proof fn lemma_past_end(d: Seq<u8>, pool: Seq<u8>, at: int) {
    }

    fn read(rd: &mut ByteReader, names: &mut SMXNameTable) -> (r: Result<Self, Error>) {
        let name_offset = rd.read_i32()?;
        let type_id = rd.read_i32()?;
        let offset = rd.read_i32()?;
        let name = names.string_at(name_offset)?;
        Ok(RTTIEnumStructField { name_offset, type_id, offset, name })
    }
}

/// The `rtti.enumstruct_fields` table.
#[derive(Debug)]
pub struct SMXRTTIEnumStructFieldTable {
    entries: Vec<RTTIEnumStructField>,
}

impl View for SMXRTTIEnumStructFieldTable {
    type V = Seq<RTTIEnumStructField>;

    closed spec fn view(&self) -> Seq<RTTIEnumStructField> {
        self.entries@
    }
}

impl SMXRTTIEnumStructFieldTable {
    /// Reads the `rtti.enumstruct_fields` section.
    pub fn new(header: Rc<SMXHeader>, section: SectionEntry, names: &mut SMXNameTable) -> (r:
        Result<Self, Error>)
        requires
            section@.within(header.data@.len()),
            old(names).wf(),
        ensures
            final(names).wf(),
            final(names).pool() == old(names).pool(),
            final(names).section() == old(names).section(),
            match r {
                Ok(t) => table_rows::<RTTIEnumStructField>(
                    section_bytes(header.data@, section@),
                    old(names).pool(),
                ) == Ok::<Seq<RTTIEnumStructFieldModel>, Error>(row_views(t@)),
                Err(e) => table_rows::<RTTIEnumStructField>(
                    section_bytes(header.data@, section@),
                    old(names).pool(),
                ) == Err::<Seq<RTTIEnumStructFieldModel>, Error>(e),
            },
    {
        let (_, entries) = read_list::<RTTIEnumStructField>(header, section, names)?;
        Ok(SMXRTTIEnumStructFieldTable { entries })
    }

    /// A copy of the rows.
    pub fn entries(&self) -> (r: Vec<RTTIEnumStructField>)
        ensures
            r@ == self@,
    {
        let r = self.entries.clone();
        assert(r@ =~= self.entries@);
        r
    }
}

/// A row of the `rtti.classdefs` section, which sixteen reserved bytes
/// follow.
#[derive(Debug)]
pub struct RTTIClassDef {
    pub flags: i32,
    pub name_offset: i32,
    pub first_field: i32,
    pub name: String,
}

/// RTTIClassDef with its name as text.
pub struct RTTIClassDefModel {
    pub flags: i32,
    pub name_offset: i32,
    pub first_field: i32,
    pub name: Seq<char>,
}

impl View for RTTIClassDef {
    type V = RTTIClassDefModel;

    open spec fn view(&self) -> RTTIClassDefModel {
        RTTIClassDefModel {
            flags: self.flags,
            name_offset: self.name_offset,
            first_field: self.first_field,
            name: self.name@,
        }
    }
}

impl Clone for RTTIClassDef {
    fn clone(&self) -> (r: Self)
        ensures
            r == *self,
    {
        RTTIClassDef {
            flags: self.flags,
            name_offset: self.name_offset,
            first_field: self.first_field,
            name: self.name.clone(),
        }
    }
}

impl ListRow for RTTIClassDef {
    open spec fn width() -> int {
        28
    }

    open spec fn row_at(d: Seq<u8>, pool: Seq<u8>, at: int) -> Result<RTTIClassDefModel, Error> {
        if d.len() < at + 12 {
            Err(eof())
        } else {
            match name_at(pool, i32_at(d, at + 4) as int) {
                Err(e) => Err(e),
                Ok(name) => Ok(
                    RTTIClassDefModel {
                        flags: i32_at(d, at),
                        name_offset: i32_at(d, at + 4),
                        first_field: i32_at(d, at + 8),
                        name,
                    },
                ),
            }
        }
    }

    proof fn lemma_past_end(d: Seq<u8>, pool: Seq<u8>, at: int) {
    }

    fn read(rd: &mut ByteReader, names: &mut SMXNameTable) -> (r: Result<Self, Error>) {
        let flags = rd.read_i32()?;
        let name_offset = rd.read_i32()?;
        let first_field = rd.read_i32()?;
        let name = names.string_at(name_offset)?;
        rd.skip(16);
        Ok(RTTIClassDef { flags, name_offset, first_field, name })
    }
}

/// The `rtti.classdefs` table.
#[derive(Debug)]
pub struct SMXRTTIClassDefTable {
    defs: Vec<RTTIClassDef>,
}

impl View for SMXRTTIClassDefTable {
    type V = Seq<RTTIClassDef>;

    closed spec fn view(&self) -> Seq<RTTIClassDef> {
        self.defs@
    }
}

impl SMXRTTIClassDefTable {
    /// Reads the `rtti.classdefs` section.
    pub fn new(header: Rc<SMXHeader>, section: SectionEntry, names: &mut SMXNameTable) -> (r:
        Result<Self, Error>)
        requires
            section@.within(header.data@.len()),
            old(names).wf(),
        ensures
            final(names).wf(),
            final(names).pool() == old(names).pool(),
            final(names).section() == old(names).section(),
            match r {
                Ok(t) => table_rows::<RTTIClassDef>(
                    section_bytes(header.data@, section@),
                    old(names).pool(),
                ) == Ok::<Seq<RTTIClassDefModel>, Error>(row_views(t@)),
                Err(e) => table_rows::<RTTIClassDef>(
                    section_bytes(header.data@, section@),
                    old(names).pool(),
                ) == Err::<Seq<RTTIClassDefModel>, Error>(e),
            },
    {
        let (_, defs) = read_list::<RTTIClassDef>(header, section, names)?;
        Ok(SMXRTTIClassDefTable { defs })
    }

    /// A copy of the rows.
    pub fn defs(&self) -> (r: Vec<RTTIClassDef>)
        ensures
            r@ == self@,
    {
        let r = self.defs.clone();
        assert(r@ =~= self.defs@);
        r
    }
}

/// A row of the `rtti.fields` section.
#[derive(Debug)]
pub struct RTTIField {
    pub flags: i16,
    pub name_offset: i32,
    pub type_id: i32,
    pub name: String,
}

/// RTTIField with its name as text.
pub struct RTTIFieldModel {
    pub flags: i16,
    pub name_offset: i32,
    pub type_id: i32,
    pub name: Seq<char>,
}

impl View for RTTIField {
    type V = RTTIFieldModel;

    open spec fn view(&self) -> RTTIFieldModel {
        RTTIFieldModel {
            flags: self.flags,
            name_offset: self.name_offset,
            type_id: self.type_id,
            name: self.name@,
        }
    }
}

impl Clone for RTTIField {
    fn clone(&self) -> (r: Self)
        ensures
            r == *self,
    {
        RTTIField {
            flags: self.flags,
            name_offset: self.name_offset,
            type_id: self.type_id,
            name: self.name.clone(),
        }
    }
}

impl ListRow for RTTIField {
    open spec fn width() -> int {
        10
    }

    open spec fn row_at(d: Seq<u8>, pool: Seq<u8>, at: int) -> Result<RTTIFieldModel, Error> {
        if d.len() < at + 10 {
            Err(eof())
        } else {
            match name_at(pool, i32_at(d, at + 2) as int) {
                Err(e) => Err(e),
                Ok(name) => Ok(
                    RTTIFieldModel {
                        flags: i16_at(d, at),
                        name_offset: i32_at(d, at + 2),
                        type_id: i32_at(d, at + 6),
                        name,
                    },
                ),
            }
        }
    }

    proof fn lemma_past_end(d: Seq<u8>, pool: Seq<u8>, at: int) {
    }

    fn read(rd: &mut ByteReader, names: &mut SMXNameTable) -> (r: Result<Self, Error>) {
        let flags = rd.read_i16()?;
        let name_offset = rd.read_i32()?;
        let type_id = rd.read_i32()?;
        let name = names.string_at(name_offset)?;
        Ok(RTTIField { flags, name_offset, type_id, name })
    }
}

/// The `rtti.fields` table.
#[derive(Debug)]
pub struct SMXRTTIFieldTable {
    fields: Vec<RTTIField>,
}

impl View for SMXRTTIFieldTable {
    type V = Seq<RTTIField>;

    closed spec fn view(&self) -> Seq<RTTIField> {
        self.fields@
    }
}

impl SMXRTTIFieldTable {
    /// Reads the `rtti.fields` section.
    pub fn new(header: Rc<SMXHeader>, section: SectionEntry, names: &mut SMXNameTable) -> (r:
        Result<Self, Error>)
        requires
            section@.within(header.data@.len()),
            old(names).wf(),
        ensures
            final(names).wf(),
            final(names).pool() == old(names).pool(),
            final(names).section() == old(names).section(),
            match r {
                Ok(t) => table_rows::<RTTIField>(
                    section_bytes(header.data@, section@),
                    old(names).pool(),
                ) == Ok::<Seq<RTTIFieldModel>, Error>(row_views(t@)),
                Err(e) => table_rows::<RTTIField>(
                    section_bytes(header.data@, section@),
                    old(names).pool(),
                ) == Err::<Seq<RTTIFieldModel>, Error>(e),
            },
    {
        let (_, fields) = read_list::<RTTIField>(header, section, names)?;
        Ok(SMXRTTIFieldTable { fields })
    }

    /// A copy of the rows.
    pub fn fields(&self) -> (r: Vec<RTTIField>)
        ensures
            r@ == self@,
    {
        let r = self.fields.clone();
        assert(r@ =~= self.fields@);
        r
    }
}


impl SMXRTTIEnumTable {
    /// The rows.
    pub fn enums_ref(&self) -> (r: &Vec<String>)
        ensures
            r@ == self@,
    {
        &self.enums
    }
}

impl SMXRTTITypedefTable {
    /// The rows.
    pub fn typedefs_ref(&self) -> (r: &Vec<RTTITypedef>)
        ensures
            r@ == self@,
    {
        &self.typedefs
    }
}

impl SMXRTTITypesetTable {
    /// The rows.
    pub fn typesets_ref(&self) -> (r: &Vec<RTTITypeset>)
        ensures
            r@ == self@,
    {
        &self.typesets
    }
}

impl SMXRTTIClassDefTable {
    /// The rows.
    pub fn defs_ref(&self) -> (r: &Vec<RTTIClassDef>)
        ensures
            r@ == self@,
    {
        &self.defs
    }
}

impl SMXRTTIEnumStructTable {
    /// The rows.
    pub fn entries_ref(&self) -> (r: &Vec<RTTIEnumStruct>)
        ensures
            r@ == self@,
    {
        &self.entries
    }
}

} // verus!
