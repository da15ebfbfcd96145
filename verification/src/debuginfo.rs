//! The debug tables that are laid out as lists: methods, globals and locals.

use vstd::prelude::*;
use crate::bytes::ByteReader;
use crate::errors::Error;
use crate::headers::{SMXHeader, SectionEntry};
use crate::rows::{collect, lemma_collect_fails};
use crate::rtti::list_header;
use crate::sections::{section_bytes, section_data};
use crate::v1types::{method_entry, var_entry, DebugMethodEntry, DebugVarEntry};

verus! {

/// A row of a list table that holds numbers only.
pub trait PlainRow: Sized {
    /// The distance from one row to the next.
    spec fn width() -> int;

    /// What the row at `at` of `d` holds.
    spec fn plain_at(d: Seq<u8>, at: int) -> Result<Self, Error>;

    /// Reads the row at the position of `rd` and moves to the next row.
    fn read_row(rd: &mut ByteReader) -> (r: Result<Self, Error>)
        ensures
            final(rd).data@ == old(rd).data@,
            r == Self::plain_at(old(rd).data@, old(rd).pos as int),
            r is Ok ==> final(rd).pos == old(rd).pos + Self::width(),
    ;
}

impl PlainRow for DebugMethodEntry {
    open spec fn width() -> int {
        8
    }

    open spec fn plain_at(d: Seq<u8>, at: int) -> Result<Self, Error> {
        method_entry(d, at)
    }

    fn read_row(rd: &mut ByteReader) -> (r: Result<Self, Error>) {
        DebugMethodEntry::read(rd)
    }
}

impl PlainRow for DebugVarEntry {
    open spec fn width() -> int {
        21
    }

    open spec fn plain_at(d: Seq<u8>, at: int) -> Result<Self, Error> {
        var_entry(d, at)
    }

    fn read_row(rd: &mut ByteReader) -> (r: Result<Self, Error>) {
        DebugVarEntry::read(rd)
    }
}

/// Row `k` of the list table in `d`.
pub open spec fn plain_row<T: PlainRow>(d: Seq<u8>) -> spec_fn(int) -> Result<T, Error> {
    |k: int| T::plain_at(d, 12 + T::width() * k)
}

/// The rows of the list table in `d`: as many as its header counts, read one
/// after the other from behind the header.
pub open spec fn plain_rows<T: PlainRow>(d: Seq<u8>) -> Result<Seq<T>, Error> {
    match list_header(d) {
        Err(e) => Err(e),
        Ok(h) => collect(plain_row::<T>(d), h.row_count as nat),
    }
}

/// Reads the rows of the list table in `data`.
pub fn read_plain_list<T: PlainRow>(data: &[u8]) -> (r: Result<Vec<T>, Error>)
    requires
        T::width() > 0,
    ensures
        match r {
            Ok(v) => plain_rows::<T>(data@) == Ok::<Seq<T>, Error>(v@),
            Err(e) => plain_rows::<T>(data@) == Err::<Seq<T>, Error>(e),
        },
{
    let mut rd = ByteReader::new(data);
    let _ = rd.read_u32()?;
    let _ = rd.read_u32()?;
    let count = rd.read_u32()?;
    let ghost row = plain_row::<T>(data@);
    let mut rows: Vec<T> = Vec::new();
    let mut k: u32 = 0;
    while k < count
        invariant
            k <= count,
            T::width() > 0,
            list_header(data@) is Ok,
            count == list_header(data@)->Ok_0.row_count,
            row == plain_row::<T>(data@),
            rd.data@ == data@,
            rd.pos == 12 + T::width() * k,
            rows@.len() == k,
            collect(row, k as nat) == Ok::<Seq<T>, Error>(rows@),
        decreases count - k,
    {
        proof {
            assert(T::width() * (k + 1) == T::width() * k + T::width()) by (nonlinear_arith);
        }
        match T::read_row(&mut rd) {
            Ok(r) => {
                rows.push(r);
            },
            Err(e) => {
                proof {
                    lemma_collect_fails(row, k as nat, count as nat);
                }
                return Err(e);
            },
        }
        k = k + 1;
    }
    Ok(rows)
}

/// The `.dbg.methods` table: for each method with debug information, the
/// first of its locals.
#[derive(Debug)]
pub struct SMXDebugMethods {
    entries: Vec<DebugMethodEntry>,
}

impl View for SMXDebugMethods {
    type V = Seq<DebugMethodEntry>;

    closed spec fn view(&self) -> Seq<DebugMethodEntry> {
        self.entries@
    }
}

impl SMXDebugMethods {
    pub fn new(header: &SMXHeader, section: &SectionEntry) -> (r: Result<Self, Error>)
        requires
            section@.within(header.data@.len()),
        ensures
            match r {
                Ok(t) => plain_rows::<DebugMethodEntry>(section_bytes(header.data@, section@))
                    == Ok::<Seq<DebugMethodEntry>, Error>(t@),
                Err(e) => plain_rows::<DebugMethodEntry>(section_bytes(header.data@, section@))
                    == Err::<Seq<DebugMethodEntry>, Error>(e),
            },
    {
        let data = section_data(header, section);
        let entries = read_plain_list::<DebugMethodEntry>(data.as_slice())?;
        Ok(SMXDebugMethods { entries })
    }

    /// A copy of the rows.
    pub fn entries(&self) -> (r: Vec<DebugMethodEntry>)
        ensures
            r@ == self@,
    {
        let r = self.entries.clone();
        assert(r@ =~= self.entries@);
        r
    }
}

/// The first of `rows` from `from` on that lives at `addr`.
pub open spec fn first_at(rows: Seq<DebugVarEntry>, addr: i32, from: int) -> Option<DebugVarEntry>
    decreases rows.len() - from,
{
    if from < 0 || from >= rows.len() {
        None
    } else if rows[from].address == addr {
        Some(rows[from])
    } else {
        first_at(rows, addr, from + 1)
    }
}

/// The `.dbg.globals` table: the global variables.
#[derive(Debug)]
pub struct SMXDebugGlobals {
    entries: Vec<DebugVarEntry>,
}

impl View for SMXDebugGlobals {
    type V = Seq<DebugVarEntry>;

    closed spec fn view(&self) -> Seq<DebugVarEntry> {
        self.entries@
    }
}

impl SMXDebugGlobals {
    pub fn new(header: &SMXHeader, section: &SectionEntry) -> (r: Result<Self, Error>)
        requires
            section@.within(header.data@.len()),
        ensures
            match r {
                Ok(t) => plain_rows::<DebugVarEntry>(section_bytes(header.data@, section@))
                    == Ok::<Seq<DebugVarEntry>, Error>(t@),
                Err(e) => plain_rows::<DebugVarEntry>(section_bytes(header.data@, section@))
                    == Err::<Seq<DebugVarEntry>, Error>(e),
            },
    {
        let data = section_data(header, section);
        let entries = read_plain_list::<DebugVarEntry>(data.as_slice())?;
        Ok(SMXDebugGlobals { entries })
    }

    /// The first global that lives at `addr`.
    pub fn find_global(&self, addr: i32) -> (r: Option<DebugVarEntry>)
        ensures
            r == first_at(self@, addr, 0),
    {
        let mut i: usize = 0;
        while i < self.entries.len()
            invariant
                i <= self.entries@.len(),
                first_at(self.entries@, addr, 0) == first_at(self.entries@, addr, i as int),
            decreases self.entries@.len() - i,
        {
            if self.entries[i].address == addr {
                return Some(self.entries[i]);
            }
            i = i + 1;
        }
        None
    }

    /// A copy of the rows.
    pub fn entries(&self) -> (r: Vec<DebugVarEntry>)
        ensures
            r@ == self@,
    {
        let r = self.entries.clone();
        assert(r@ =~= self.entries@);
        r
    }
}

/// Whether `row` is the local at `addr` as seen from the code at
/// `code_addr`: it lives there, and the code lies in its range.
pub open spec fn local_matches(row: DebugVarEntry, code_addr: i32, addr: i32) -> bool {
    row.code_start <= code_addr <= row.code_end && row.address == addr
}

/// The last of the first `upto` of `rows` that is the local at `addr` seen
/// from `code_addr`.
pub open spec fn last_local(rows: Seq<DebugVarEntry>, code_addr: i32, addr: i32, upto: int)
    -> Option<DebugVarEntry>
    decreases upto,
{
    if upto <= 0 || upto > rows.len() {
        None
    } else if local_matches(rows[upto - 1], code_addr, addr) {
        Some(rows[upto - 1])
    } else {
        last_local(rows, code_addr, addr, upto - 1)
    }
}

/// The `.dbg.locals` table: the local variables, each with the range of code
/// in which it is in scope.
#[derive(Debug)]
pub struct SMXDebugLocals {
    entries: Vec<DebugVarEntry>,
}

impl View for SMXDebugLocals {
    type V = Seq<DebugVarEntry>;

    closed spec fn view(&self) -> Seq<DebugVarEntry> {
        self.entries@
    }
}

impl SMXDebugLocals {
    pub fn new(header: &SMXHeader, section: &SectionEntry) -> (r: Result<Self, Error>)
        requires
            section@.within(header.data@.len()),
        ensures
            match r {
                Ok(t) => plain_rows::<DebugVarEntry>(section_bytes(header.data@, section@))
                    == Ok::<Seq<DebugVarEntry>, Error>(t@),
                Err(e) => plain_rows::<DebugVarEntry>(section_bytes(header.data@, section@))
                    == Err::<Seq<DebugVarEntry>, Error>(e),
            },
    {
        let data = section_data(header, section);
        let entries = read_plain_list::<DebugVarEntry>(data.as_slice())?;
        Ok(SMXDebugLocals { entries })
    }

    /// The local that lives at `addr` and is in scope at `code_addr`; where
    /// several are, the one that comes last in the table.
    pub fn find_local(&self, code_addr: i32, addr: i32) -> (r: Option<DebugVarEntry>)
        ensures
            r == last_local(self@, code_addr, addr, self@.len() as int),
    {
        let mut i: usize = self.entries.len();
        while i > 0
            invariant
                i <= self.entries@.len(),
                last_local(self.entries@, code_addr, addr, self.entries@.len() as int)
                    == last_local(self.entries@, code_addr, addr, i as int),
            decreases i,
        {
            i = i - 1;
            let row = self.entries[i];
            if row.code_start <= code_addr && code_addr <= row.code_end && row.address == addr {
                return Some(row);
            }
        }
        None
    }

    /// A copy of the rows.
    pub fn entries(&self) -> (r: Vec<DebugVarEntry>)
        ensures
            r@ == self@,
    {
        let r = self.entries.clone();
        assert(r@ =~= self.entries@);
        r
    }
}

} // verus!
