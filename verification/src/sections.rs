//! The sections of a container as tables: the name pools, publics, natives,
//! public variables, tags, the code and data headers, and the debug tables.

use vstd::prelude::*;
use vstd::slice::slice_to_vec;
use std::collections::HashMap;
use std::rc::Rc;
use vstd::string::StringExecFns;
use crate::errors::Error;
use crate::headers::{SMXHeader, SectionEntry, SectionModel};
use crate::text::{
    find_nul, first_nul, hex_digits, lemma_first_nul, lemma_first_nul_unique, lossy_string,
    lower_hex, utf8_lossy,
};
use crate::v1types::{code_header, data_header, debug_info_header, line_rows, named_rows, native_models, native_rows, rows_of, CalledFunctionEntry, CodeV1Header, DataHeader, DebugFileEntry, DebugInfoHeader, DebugLineEntry, NameRow, NativeEntry, NativeRow, PublicEntry, PubvarEntry, TagEntry};

verus! {

broadcast use vstd::std_specs::hash::group_hash_axioms;

/// `Rc::clone`: another pointer to the same value.
#[verifier::external_body]
pub(crate) fn share<T>(rc: &Rc<T>) -> (r: Rc<T>)
    ensures
        r == rc,
{
    Rc::clone(rc)
}

/// The contents of section `s` in `image`.
pub open spec fn section_bytes(image: Seq<u8>, s: SectionModel) -> Seq<u8> {
    image.subrange(s.data_offset as int, s.data_offset + s.size)
}

/// A copy of the contents of `section` in the image of `header`.
pub fn section_data(header: &SMXHeader, section: &SectionEntry) -> (r: Vec<u8>)
    requires
        section@.within(header.data@.len()),
    ensures
        r@ == section_bytes(header.data@, section@),
{
    let start = section.data_offset as usize;
    let end = start + section.size as usize;
    slice_to_vec(&header.data.as_slice()[start..end])
}

/// A section of a loaded container, as a range of its image.
#[derive(Debug)]
pub struct BaseSection {
    pub header: Rc<SMXHeader>,
    pub section: SectionEntry,
}

impl BaseSection {
    /// Whether the section lies inside the image.
    pub open spec fn inside(&self) -> bool {
        self.section@.within(self.header.data@.len())
    }

    /// The section's contents.
    pub open spec fn bytes(&self) -> Seq<u8> {
        section_bytes(self.header.data@, self.section@)
    }

    pub fn new(header: Rc<SMXHeader>, section: SectionEntry) -> (r: Self)
        ensures
            r.header == header,
            r.section == section,
    {
        BaseSection { header, section }
    }

    /// A copy of the directory entry.
    pub fn section(&self) -> (r: SectionEntry)
        ensures
            r == self.section,
    {
        self.section.clone()
    }

    /// A copy of the section's contents.
    pub fn get_data(&self) -> (r: Vec<u8>)
        requires
            self.inside(),
        ensures
            r@ == self.bytes(),
    {
        section_data(&self.header, &self.section)
    }
}

impl Clone for BaseSection {
    fn clone(&self) -> (r: Self)
        ensures
            r == *self,
    {
        BaseSection { header: share(&self.header), section: self.section.clone() }
    }
}

/// The name that starts at `index` of the string pool `pool`: the text of the
/// bytes up to the next NUL, or up to the end of the pool where none follows.
/// An index outside the pool is refused.
pub open spec fn name_at(pool: Seq<u8>, index: int) -> Result<Seq<char>, Error> {
    if index < 0 || index >= pool.len() {
        Err(Error::InvalidIndex)
    } else {
        Ok(utf8_lossy(pool.subrange(index, first_nul(pool, index, pool.len() as int))))
    }
}

/// The offsets from `start` on at which a NUL-terminated string of `pool`
/// starts: `start` itself where a NUL follows, then the offset behind that
/// NUL, and so on.
pub open spec fn roots_from(pool: Seq<u8>, start: int) -> Seq<i32>
    decreases pool.len() - start,
{
    let end = first_nul(pool, start, pool.len() as int);
    if start < 0 || start >= pool.len() || end >= pool.len() {
        Seq::empty()
    } else {
        proof {
            lemma_first_nul(pool, start, pool.len() as int);
        }
        seq![start as i32] + roots_from(pool, end + 1)
    }
}

/// The offsets at which the NUL-terminated strings of `pool` start.
pub open spec fn roots(pool: Seq<u8>) -> Seq<i32> {
    roots_from(pool, 0)
}

/// Searching a range of a section for NUL is searching the image, shifted.
pub proof fn lemma_first_nul_shift(image: Seq<u8>, base: int, len: int, from: int)
    requires
        0 <= base,
        0 <= from <= len,
        base + len <= image.len(),
    ensures
        first_nul(image, base + from, base + len) == base + first_nul(
            image.subrange(base, base + len),
            from,
            len,
        ),
    decreases len - from,
{
    if from < len {
        lemma_first_nul_shift(image, base, len, from + 1);
    }
}

/// Every root of a pool is an offset inside it, a NUL follows it, and the
/// name at it is the text of the bytes from it up to that NUL.
pub proof fn lemma_root_names(pool: Seq<u8>, k: int)
    requires
        0 <= k < roots(pool).len(),
        pool.len() <= i32::MAX,
    ensures
        0 <= roots(pool)[k] < pool.len(),
        first_nul(pool, roots(pool)[k] as int, pool.len() as int) < pool.len(),
        name_at(pool, roots(pool)[k] as int) == Ok::<Seq<char>, Error>(
            utf8_lossy(
                pool.subrange(
                    roots(pool)[k] as int,
                    first_nul(pool, roots(pool)[k] as int, pool.len() as int),
                ),
            ),
        ),
{
    lemma_roots_from(pool, 0, k);
}

proof fn lemma_roots_from(pool: Seq<u8>, start: int, k: int)
    requires
        0 <= start,
        0 <= k < roots_from(pool, start).len(),
        pool.len() <= i32::MAX,
    ensures
        start <= roots_from(pool, start)[k] < pool.len(),
        first_nul(pool, roots_from(pool, start)[k] as int, pool.len() as int) < pool.len(),
    decreases pool.len() - start,
{
    let end = first_nul(pool, start, pool.len() as int);
    if start < pool.len() && end < pool.len() {
        lemma_first_nul(pool, start, pool.len() as int);
        if k > 0 {
            lemma_roots_from(pool, end + 1, k - 1);
        }
    }
}

/// A string pool: a section that holds NUL-terminated names, which other
/// tables refer to by offset.
#[derive(Debug)]
pub struct SMXNameTable {
    base: BaseSection,
    names: HashMap<i32, String>,
    extends: Vec<i32>,
}

impl SMXNameTable {
    /// What every name table upholds: its section lies inside the image, and
    /// what it remembers of earlier lookups is what a new lookup would find.
    pub closed spec fn wf(&self) -> bool {
        &&& self.base.inside()
        &&& forall|k: i32| #[trigger]
            self.names@.contains_key(k) ==> name_at(self.pool(), k as int) == Ok::<
                Seq<char>,
                Error,
            >(self.names@[k]@)
        &&& self.extends@.len() == 0 || self.extends@ == roots(self.pool())
    }

    /// The bytes of the pool.
    pub closed spec fn pool(&self) -> Seq<u8> {
        self.base.bytes()
    }

    /// The section that holds the pool.
    pub closed spec fn section(&self) -> SectionModel {
        self.base.section@
    }

    pub fn new(header: Rc<SMXHeader>, section: SectionEntry) -> (r: Self)
        requires
            section@.within(header.data@.len()),
        ensures
            r.wf(),
            r.pool() == section_bytes(header.data@, section@),
            r.section() == section@,
    {
        SMXNameTable {
            base: BaseSection::new(header, section),
            names: HashMap::new(),
            extends: Vec::new(),
        }
    }

    /// A table over the same pool that remembers nothing yet.
    pub fn fresh(&self) -> (r: Self)
        ensures
            r.pool() == self.pool(),
            r.section() == self.section(),
            self.wf() ==> r.wf(),
    {
        SMXNameTable { base: self.base.clone(), names: HashMap::new(), extends: Vec::new() }
    }

    fn compute_extends(&self) -> (r: Vec<i32>)
        requires
            self.wf(),
        ensures
            r@ == roots(self.pool()),
    {
        let image = self.base.header.data.as_slice();
        let base = self.base.section.data_offset as usize;
        let size = self.base.section.size;
        let ghost pool = self.pool();
        let total = image.len();
        let mut found: Vec<i32> = Vec::new();
        let mut last_index: i32 = 0;
        let mut i: i32 = 0;
        while i < size
            invariant
                0 <= last_index <= i <= size,
                pool == image@.subrange(base as int, base + size),
                pool.len() == size,
                base + size <= image@.len() == total,
                roots(pool) == found@ + roots_from(pool, last_index as int),
                forall|j: int| last_index <= j < i ==> pool[j] != 0,
            decreases size - i,
        {
            if image[base + i as usize] == 0 {
                proof {
                    lemma_first_nul_unique(pool, last_index as int, size as int, i as int);
                    assert(found@.push(last_index) + roots_from(pool, i + 1) =~= found@
                        + roots_from(pool, last_index as int));
                }
                found.push(last_index);
                last_index = i + 1;
            }
            i = i + 1;
        }
        proof {
            lemma_first_nul_unique(pool, last_index as int, size as int, size as int);
            assert(found@ + roots_from(pool, last_index as int) =~= found@);
        }
        found
    }

    /// The offsets at which the NUL-terminated strings of the pool start, in
    /// rising order.
    pub fn get_extends(&mut self) -> (r: Vec<i32>)
        requires
            old(self).wf(),
        ensures
            final(self).wf(),
            r@ == roots(old(self).pool()),
            final(self).pool() == old(self).pool(),
            final(self).section() == old(self).section(),
    {
        if self.extends.len() == 0 {
            let found = self.compute_extends();
            self.extends = found;
        }
        self.extends.clone()
    }

    /// The name that starts at offset `index` of the pool.
    pub fn string_at(&mut self, index: i32) -> (r: Result<String, Error>)
        requires
            old(self).wf(),
        ensures
            final(self).wf(),
            match r {
                Ok(s) => name_at(old(self).pool(), index as int) == Ok::<Seq<char>, Error>(s@),
                Err(e) => name_at(old(self).pool(), index as int) == Err::<Seq<char>, Error>(e),
            },
            final(self).pool() == old(self).pool(),
            final(self).section() == old(self).section(),
    {
        match self.names.get(&index) {
            Some(known) => {
                return Ok(known.clone());
            },
            None => {},
        }
        if index < 0 || index >= self.base.section.size {
            return Err(Error::InvalidIndex);
        }
        let image = self.base.header.data.as_slice();
        let base = self.base.section.data_offset as usize;
        let start = base + index as usize;
        let limit = base + self.base.section.size as usize;
        let end = find_nul(image, start, limit);
        let name = lossy_string(&image[start..end]);
        proof {
            lemma_first_nul_shift(
                image@,
                base as int,
                self.base.section.size as int,
                index as int,
            );
            assert(image@.subrange(start as int, end as int) =~= self.pool().subrange(
                index as int,
                end - base,
            ));
        }
        self.names.insert(index, name.clone());
        Ok(name)
    }
}


/// The `.natives` table.
#[derive(Debug)]
pub struct SMXNativeTable {
    natives: Vec<NativeEntry>,
}

impl View for SMXNativeTable {
    type V = Seq<NativeEntry>;

    closed spec fn view(&self) -> Seq<NativeEntry> {
        self.natives@
    }
}

impl SMXNativeTable {
    pub fn new(header: &SMXHeader, section: &SectionEntry, names: &mut SMXNameTable) -> (r: Result<
        Self,
        Error,
    >)
        requires
            section@.within(header.data@.len()),
            old(names).wf(),
        ensures
            final(names).wf(),
            final(names).pool() == old(names).pool(),
            final(names).section() == old(names).section(),
            match r {
                Ok(t) => native_rows(
                    section_bytes(header.data@, section@),
                    section.size as int,
                    old(names).pool(),
                ) == Ok::<Seq<NativeRow>, Error>(native_models(t@)),
                Err(e) => native_rows(
                    section_bytes(header.data@, section@),
                    section.size as int,
                    old(names).pool(),
                ) == Err::<Seq<NativeRow>, Error>(e),
            },
            r matches Ok(t) ==> t@.len() == section.size / NativeEntry::SIZE,
            section.size % NativeEntry::SIZE != 0 ==> r matches Err(Error::InvalidSize),
    {
        let data = section_data(header, section);
        let natives = NativeEntry::new(data.as_slice(), section, names)?;
        Ok(SMXNativeTable { natives })
    }

    /// A copy of the rows.
    pub fn entries(&self) -> (r: Vec<NativeEntry>)
        ensures
            r@ == self@,
    {
        let r = self.natives.clone();
        assert(r@ =~= self.natives@);
        r
    }

    /// A copy of row `index`.
    pub fn get_entry(&self, index: usize) -> (r: NativeEntry)
        requires
            index < self@.len(),
        ensures
            r == self@[index as int],
    {
        self.natives[index].clone()
    }

    pub fn size(&self) -> (r: usize)
        ensures
            r == self@.len(),
    {
        self.natives.len()
    }
}

/// The `.publics` table.
#[derive(Debug)]
pub struct SMXPublicTable {
    publics: Vec<PublicEntry>,
}

impl View for SMXPublicTable {
    type V = Seq<PublicEntry>;

    closed spec fn view(&self) -> Seq<PublicEntry> {
        self.publics@
    }
}

impl SMXPublicTable {
    pub fn new(header: &SMXHeader, section: &SectionEntry, names: &mut SMXNameTable) -> (r: Result<
        Self,
        Error,
    >)
        requires
            section@.within(header.data@.len()),
            old(names).wf(),
        ensures
            final(names).wf(),
            final(names).pool() == old(names).pool(),
            final(names).section() == old(names).section(),
            match r {
                Ok(t) => named_rows(
                    section_bytes(header.data@, section@),
                    section.size as int,
                    old(names).pool(),
                ) == Ok::<Seq<NameRow>, Error>(rows_of(t@)),
                Err(e) => named_rows(
                    section_bytes(header.data@, section@),
                    section.size as int,
                    old(names).pool(),
                ) == Err::<Seq<NameRow>, Error>(e),
            },
            r matches Ok(t) ==> t@.len() == section.size / PublicEntry::SIZE,
            section.size % PublicEntry::SIZE != 0 ==> r matches Err(Error::InvalidSize),
    {
        let data = section_data(header, section);
        let publics = PublicEntry::new(data.as_slice(), section, names)?;
        Ok(SMXPublicTable { publics })
    }

    /// A copy of the rows.
    pub fn entries(&self) -> (r: Vec<PublicEntry>)
        ensures
            r@ == self@,
    {
        let r = self.publics.clone();
        assert(r@ =~= self.publics@);
        r
    }

    /// The rows.
    pub fn entries_ref(&self) -> (r: &Vec<PublicEntry>)
        ensures
            r@ == self@,
    {
        &self.publics
    }

    /// A copy of row `index`.
    pub fn get_entry(&self, index: usize) -> (r: PublicEntry)
        requires
            index < self@.len(),
        ensures
            r == self@[index as int],
    {
        self.publics[index].clone()
    }

    pub fn size(&self) -> (r: usize)
        ensures
            r == self@.len(),
    {
        self.publics.len()
    }
}

/// The name that is made up for a function at `addr` that no table names.
pub open spec fn sub_name(addr: u32) -> Seq<char> {
    "sub_"@ + hex_digits(addr as nat)
}

/// The functions that call instructions were found to enter and that the
/// container does not export, in the order in which they were found.
#[derive(Debug)]
pub struct SMXCalledFunctionsTable {
    functions: Vec<CalledFunctionEntry>,
}

impl View for SMXCalledFunctionsTable {
    type V = Seq<CalledFunctionEntry>;

    closed spec fn view(&self) -> Seq<CalledFunctionEntry> {
        self.functions@
    }
}

impl Default for SMXCalledFunctionsTable {
    fn default() -> (r: Self)
        ensures
            r@ == Seq::<CalledFunctionEntry>::empty(),
    {
        SMXCalledFunctionsTable { functions: Vec::new() }
    }
}

impl SMXCalledFunctionsTable {
    pub fn new() -> (r: Self)
        ensures
            r@ == Seq::<CalledFunctionEntry>::empty(),
    {
        SMXCalledFunctionsTable { functions: Vec::new() }
    }

    /// Appends the function at `addr`, under the name `sub_` followed by the
    /// address in lower-case hexadecimal.
    pub fn add_function(&mut self, addr: u32)
        ensures
            final(self)@.len() == old(self)@.len() + 1,
            final(self)@.subrange(0, old(self)@.len() as int) == old(self)@,
            final(self)@.last().address == addr,
            final(self)@.last().name@ == sub_name(addr),
    {
        let mut name = String::from_str("sub_");
        let digits = lower_hex(addr);
        name.append(digits.as_str());
        self.functions.push(CalledFunctionEntry { address: addr, name });
        assert(self.functions@.subrange(0, old(self).functions@.len() as int) =~= old(
            self,
        ).functions@);
    }

    /// A copy of the rows.
    pub fn entries(&self) -> (r: Vec<CalledFunctionEntry>)
        ensures
            r@ == self@,
    {
        let r = self.functions.clone();
        assert(r@ =~= self.functions@);
        r
    }

    /// The rows.
    pub fn entries_ref(&self) -> (r: &Vec<CalledFunctionEntry>)
        ensures
            r@ == self@,
    {
        &self.functions
    }

    /// A copy of row `index`.
    pub fn get_entry(&self, index: usize) -> (r: CalledFunctionEntry)
        requires
            index < self@.len(),
        ensures
            r == self@[index as int],
    {
        self.functions[index].clone()
    }

    pub fn size(&self) -> (r: usize)
        ensures
            r == self@.len(),
    {
        self.functions.len()
    }
}

/// The `.pubvars` table.
#[derive(Debug)]
pub struct SMXPubvarTable {
    public_variables: Vec<PubvarEntry>,
}

impl View for SMXPubvarTable {
    type V = Seq<PubvarEntry>;

    closed spec fn view(&self) -> Seq<PubvarEntry> {
        self.public_variables@
    }
}

impl SMXPubvarTable {
    pub fn new(header: &SMXHeader, section: &SectionEntry, names: &mut SMXNameTable) -> (r: Result<
        Self,
        Error,
    >)
        requires
            section@.within(header.data@.len()),
            old(names).wf(),
        ensures
            final(names).wf(),
            final(names).pool() == old(names).pool(),
            final(names).section() == old(names).section(),
            match r {
                Ok(t) => named_rows(
                    section_bytes(header.data@, section@),
                    section.size as int,
                    old(names).pool(),
                ) == Ok::<Seq<NameRow>, Error>(rows_of(t@)),
                Err(e) => named_rows(
                    section_bytes(header.data@, section@),
                    section.size as int,
                    old(names).pool(),
                ) == Err::<Seq<NameRow>, Error>(e),
            },
            r matches Ok(t) ==> t@.len() == section.size / PubvarEntry::SIZE,
            section.size % PubvarEntry::SIZE != 0 ==> r matches Err(Error::InvalidSize),
    {
        let data = section_data(header, section);
        let public_variables = PubvarEntry::new(data.as_slice(), section, names)?;
        Ok(SMXPubvarTable { public_variables })
    }

    /// A copy of the rows.
    pub fn entries(&self) -> (r: Vec<PubvarEntry>)
        ensures
            r@ == self@,
    {
        let r = self.public_variables.clone();
        assert(r@ =~= self.public_variables@);
        r
    }

    /// A copy of row `index`.
    pub fn get_entry(&self, index: usize) -> (r: PubvarEntry)
        requires
            index < self@.len(),
        ensures
            r == self@[index as int],
    {
        self.public_variables[index].clone()
    }

    pub fn size(&self) -> (r: usize)
        ensures
            r == self@.len(),
    {
        self.public_variables.len()
    }
}

/// The flags that a tag id can carry in its high bits.
#[derive(Debug, Clone, Copy, PartialEq, Eq)]
pub enum TagFlags {
    Fixed,
    Function,
    Object,
    Enum,
    MethodMap,
    Struct,
}

impl TagFlags {
    /// The bit of the flag.
    pub open spec fn bit(self) -> u32 {
        match self {
            TagFlags::Fixed => TagEntry::FIXED,
            TagFlags::Function => TagEntry::FUNC,
            TagFlags::Object => TagEntry::OBJECT,
            TagFlags::Enum => TagEntry::ENUM,
            TagFlags::MethodMap => TagEntry::METHODMAP,
            TagFlags::Struct => TagEntry::STRUCT,
        }
    }

    pub fn value(&self) -> (r: u32)
        ensures
            r == self.bit(),
    {
        match self {
            TagFlags::Fixed => 0x4000_0000,
            TagFlags::Function => 0x2000_0000,
            TagFlags::Object => 0x1000_0000,
            TagFlags::Enum => 0x0800_0000,
            TagFlags::MethodMap => 0x0400_0000,
            TagFlags::Struct => 0x0200_0000,
        }
    }
}

/// A tag: a row of the `.tags` section, seen as an id with flags.
#[derive(Debug)]
pub struct Tag {
    entry: TagEntry,
}

impl View for Tag {
    type V = TagEntry;

    closed spec fn view(&self) -> TagEntry {
        self.entry
    }
}

impl Clone for Tag {
    fn clone(&self) -> (r: Self)
        ensures
            r == *self,
    {
        Tag { entry: self.entry.clone() }
    }
}

impl Tag {
    pub fn new(entry: TagEntry) -> (r: Self)
        ensures
            r@ == entry,
    {
        Tag { entry }
    }

    /// The tag without its flag bits.
    pub fn id(&self) -> (r: u32)
        ensures
            r == self@.tag & !TagEntry::FLAGMASK,
    {
        self.entry.tag & !TagEntry::FLAGMASK
    }

    /// The tag as the section holds it.
    pub fn value(&self) -> (r: u32)
        ensures
            r == self@.tag,
    {
        self.entry.tag
    }

    /// The flag bits of the tag.
    pub fn flags(&self) -> (r: u32)
        ensures
            r == self@.tag & TagEntry::FLAGMASK,
    {
        self.entry.tag & TagEntry::FLAGMASK
    }

    pub fn name(&self) -> (r: String)
        ensures
            r == self@.name,
    {
        self.entry.name.clone()
    }

    pub fn entry(&self) -> (r: TagEntry)
        ensures
            r == self@,
    {
        self.entry.clone()
    }
}

/// The low 16 bits of `v`.
pub open spec fn low16(v: u32) -> u16 {
    (v % 0x1_0000) as u16
}

/// Whether the low 16 bits of the id of `t` are `tag`.
pub open spec fn tag_matches(t: Tag, tag: u16) -> bool {
    low16(t@.tag & !TagEntry::FLAGMASK) == tag
}

/// The first tag of `tags` from `from` on whose id matches `tag`.
pub open spec fn first_tag_from(tags: Seq<Tag>, tag: u16, from: int) -> Option<Tag>
    decreases tags.len() - from,
{
    if from < 0 || from >= tags.len() {
        None
    } else if tag_matches(tags[from], tag) {
        Some(tags[from])
    } else {
        first_tag_from(tags, tag, from + 1)
    }
}

/// The first tag of `tags` whose id matches `tag`.
pub open spec fn first_tag(tags: Seq<Tag>, tag: u16) -> Option<Tag> {
    first_tag_from(tags, tag, 0)
}

/// `first_tag_from` finds a tag that matches and that no matching tag
/// precedes, and it finds none only where none matches.
pub proof fn lemma_first_tag(tags: Seq<Tag>, tag: u16, from: int)
    requires
        0 <= from,
    ensures
        match first_tag_from(tags, tag, from) {
            Some(t) => exists|i: int|
                from <= i < tags.len() && tags[i] == t && tag_matches(tags[i], tag) && forall|
                    j: int,
                | from <= j < i ==> !tag_matches(#[trigger] tags[j], tag),
            None => forall|j: int| from <= j < tags.len() ==> !tag_matches(#[trigger] tags[j], tag),
        },
    decreases tags.len() - from,
{
    if from < tags.len() {
        if tag_matches(tags[from], tag) {
        } else {
            lemma_first_tag(tags, tag, from + 1);
            match first_tag_from(tags, tag, from + 1) {
                Some(t) => {
                    let i = choose|i: int|
                        from + 1 <= i < tags.len() && tags[i] == t && tag_matches(tags[i], tag)
                            && forall|j: int|
                            from + 1 <= j < i ==> !tag_matches(#[trigger] tags[j], tag);
                    assert(from <= i < tags.len() && tags[i] == t && tag_matches(tags[i], tag)
                        && forall|j: int| from <= j < i ==> !tag_matches(#[trigger] tags[j], tag));
                },
                None => {},
            }
        }
    }
}

/// The `.tags` table.
#[derive(Debug)]
pub struct SMXTagTable {
    tags: Vec<Tag>,
    cache: HashMap<u16, Tag>,
}

/// The rows that the tags `tags` show.
pub open spec fn tag_rows(tags: Seq<Tag>) -> Seq<TagEntry> {
    tags.map_values(|t: Tag| t@)
}

impl View for SMXTagTable {
    type V = Seq<Tag>;

    closed spec fn view(&self) -> Seq<Tag> {
        self.tags@
    }
}

impl SMXTagTable {
    /// What every tag table upholds: what it remembers of earlier searches
    /// is what a new search would find.
    pub closed spec fn wf(&self) -> bool {
        forall|k: u16| #[trigger]
            self.cache@.contains_key(k) ==> first_tag(self.tags@, k) == Some(self.cache@[k])
    }

    pub fn new(header: &SMXHeader, section: &SectionEntry, names: &mut SMXNameTable) -> (r: Result<
        Self,
        Error,
    >)
        requires
            section@.within(header.data@.len()),
            old(names).wf(),
        ensures
            final(names).wf(),
            final(names).pool() == old(names).pool(),
            final(names).section() == old(names).section(),
            match r {
                Ok(t) => t.wf() && named_rows(
                    section_bytes(header.data@, section@),
                    section.size as int,
                    old(names).pool(),
                ) == Ok::<Seq<NameRow>, Error>(rows_of(tag_rows(t@))),
                Err(e) => named_rows(
                    section_bytes(header.data@, section@),
                    section.size as int,
                    old(names).pool(),
                ) == Err::<Seq<NameRow>, Error>(e),
            },
            r matches Ok(t) ==> t@.len() == section.size / TagEntry::SIZE,
            section.size % TagEntry::SIZE != 0 ==> r matches Err(Error::InvalidSize),
    {
        let data = section_data(header, section);
        let rows = TagEntry::new(data.as_slice(), section, names)?;
        let mut tags: Vec<Tag> = Vec::new();
        let mut i: usize = 0;
        while i < rows.len()
            invariant
                i <= rows@.len(),
                tags@.len() == i,
                forall|j: int| 0 <= j < i ==> (#[trigger] tags@[j])@ == rows@[j],
            decreases rows@.len() - i,
        {
            tags.push(Tag::new(rows[i].clone()));
            i = i + 1;
        }
        assert(tag_rows(tags@) =~= rows@);
        Ok(SMXTagTable { tags, cache: HashMap::new() })
    }

    /// The first tag whose id is `tag` in its low 16 bits.
    pub fn find_tag(&mut self, tag: u16) -> (r: Option<Tag>)
        requires
            old(self).wf(),
        ensures
            final(self).wf(),
            final(self)@ == old(self)@,
            r == first_tag(old(self)@, tag),
    {
        match self.cache.get(&tag) {
            Some(known) => {
                return Some(known.clone());
            },
            None => {},
        }
        let mut found: Option<Tag> = None;
        let mut i: usize = 0;
        while i < self.tags.len()
            invariant_except_break
                found is None,
                first_tag(self.tags@, tag) == first_tag_from(self.tags@, tag, i as int),
            invariant
                i <= self.tags@.len(),
                *self == *old(self),
            ensures
                *self == *old(self),
                found == first_tag(self.tags@, tag),
            decreases self.tags@.len() - i,
        {
            let id = self.tags[i].id();
            assert((id & 0xffff) == id % 0x1_0000) by (bit_vector);
            if (id & 0xffff) as u16 == tag {
                found = Some(self.tags[i].clone());
                break ;
            }
            i = i + 1;
        }
        match &found {
            Some(v) => {
                self.cache.insert(tag, v.clone());
            },
            None => {},
        }
        found
    }

    /// A copy of the tags.
    pub fn entries(&self) -> (r: Vec<Tag>)
        ensures
            r@ == self@,
    {
        let r = self.tags.clone();
        assert(r@ =~= self.tags@);
        r
    }

    /// A copy of tag `index`.
    pub fn get_entry(&self, index: usize) -> (r: Tag)
        requires
            index < self@.len(),
        ensures
            r == self@[index as int],
    {
        self.tags[index].clone()
    }

    pub fn len(&self) -> (r: usize)
        ensures
            r == self@.len(),
    {
        self.tags.len()
    }

    pub fn is_empty(&self) -> (r: bool)
        ensures
            r == (self@.len() == 0),
    {
        self.tags.len() == 0
    }
}


/// The `.data` section: its header, and where the data blob lies.
#[derive(Debug)]
pub struct SMXDataSection {
    base: BaseSection,
    data_header: DataHeader,
}

impl SMXDataSection {
    #[verifier::type_invariant]
    spec fn inv(&self) -> bool {
        self.base.inside()
    }

    /// The image of the container.
    pub closed spec fn image(&self) -> Seq<u8> {
        self.base.header.data@
    }

    /// The directory entry of the section.
    pub closed spec fn section(&self) -> SectionModel {
        self.base.section@
    }

    /// The header of the section.
    pub closed spec fn spec_header(&self) -> DataHeader {
        self.data_header
    }

    /// Where the data blob starts in the image.
    pub open spec fn blob_start(&self) -> int {
        self.section().data_offset + self.spec_header().data_offset
    }

    /// Where the data blob ends in the image.
    pub open spec fn blob_end(&self) -> int {
        self.blob_start() + self.spec_header().data_size
    }

    pub fn new(header: Rc<SMXHeader>, section: SectionEntry) -> (r: Result<Self, Error>)
        requires
            section@.within(header.data@.len()),
        ensures
            match r {
                Ok(s) => data_header(section_bytes(header.data@, section@)) == Ok::<
                    DataHeader,
                    Error,
                >(s.spec_header()) && s.image() == header.data@ && s.section() == section@,
                Err(e) => data_header(section_bytes(header.data@, section@)) == Err::<
                    DataHeader,
                    Error,
                >(e),
            },
    {
        let base = BaseSection::new(header, section);
        let data = base.get_data();
        let data_header = DataHeader::new(data.as_slice())?;
        Ok(SMXDataSection { base, data_header })
    }

    /// A copy of the data blob.
    pub fn get_data_vec(&self) -> (r: Vec<u8>)
        requires
            self.blob_end() <= self.image().len(),
        ensures
            r@ == self.image().subrange(self.blob_start(), self.blob_end()),
    {
        proof {
            use_type_invariant(self);
        }
        let image = self.base.header.data.as_slice();
        let _ = image.len();
        let start = self.base.section.data_offset as u64 + self.data_header.data_offset as u64;
        let end = start + self.data_header.data_size as u64;
        slice_to_vec(&image[start as usize..end as usize])
    }

    pub fn header(&self) -> (r: DataHeader)
        ensures
            r == self.spec_header(),
    {
        self.data_header
    }
}

/// The `.code` section: its header, and where the code blob lies.
#[derive(Debug)]
pub struct SMXCodeV1Section {
    base: BaseSection,
    code_header: CodeV1Header,
}

impl SMXCodeV1Section {
    #[verifier::type_invariant]
    spec fn inv(&self) -> bool {
        self.base.inside()
    }

    /// The image of the container.
    pub closed spec fn image(&self) -> Seq<u8> {
        self.base.header.data@
    }

    /// The data offset of the container's header.
    pub closed spec fn container_data_offset(&self) -> i32 {
        self.base.header.data_offset
    }

    /// The directory entry of the section.
    pub closed spec fn section(&self) -> SectionModel {
        self.base.section@
    }

    /// The header of the section.
    pub closed spec fn spec_header(&self) -> CodeV1Header {
        self.code_header
    }

    /// Where the code blob starts in the image.
    pub open spec fn blob_start(&self) -> int {
        self.section().data_offset + self.spec_header().code_offset
    }

    /// Where the code blob ends in the image.
    pub open spec fn blob_end(&self) -> int {
        self.blob_start() + self.spec_header().code_size
    }

    /// The position in the image that code addresses count from: the data
    /// offset of the container's header plus the code offset of this
    /// section's header.
    pub open spec fn spec_code_start(&self) -> int {
        self.container_data_offset() + self.spec_header().code_offset
    }

    pub fn new(header: Rc<SMXHeader>, section: SectionEntry) -> (r: Result<Self, Error>)
        requires
            section@.within(header.data@.len()),
        ensures
            match r {
                Ok(s) => code_header(section_bytes(header.data@, section@)) == Ok::<
                    CodeV1Header,
                    Error,
                >(s.spec_header()) && s.image() == header.data@ && s.section() == section@
                    && s.container_data_offset() == header.data_offset,
                Err(e) => code_header(section_bytes(header.data@, section@)) == Err::<
                    CodeV1Header,
                    Error,
                >(e),
            },
    {
        let base = BaseSection::new(header, section);
        let data = base.get_data();
        let code_header = CodeV1Header::new(data.as_slice())?;
        Ok(SMXCodeV1Section { base, code_header })
    }

    /// A copy of the code blob.
    pub fn get_data_vec(&self) -> (r: Vec<u8>)
        requires
            0 <= self.blob_start() <= self.blob_end() <= self.image().len(),
        ensures
            r@ == self.image().subrange(self.blob_start(), self.blob_end()),
    {
        proof {
            use_type_invariant(self);
        }
        let image = self.base.header.data.as_slice();
        let _ = image.len();
        let start = self.base.section.data_offset as i64 + self.code_header.code_offset as i64;
        let end = start + self.code_header.code_size as i64;
        slice_to_vec(&image[start as usize..end as usize])
    }

    pub fn header(&self) -> (r: CodeV1Header)
        ensures
            r == self.spec_header(),
    {
        self.code_header
    }

    /// The image of the container.
    pub fn image_ref(&self) -> (r: &[u8])
        ensures
            r@ == self.image(),
    {
        self.base.header.data.as_slice()
    }

    /// The position in the image that code addresses count from.
    pub fn code_start(&self) -> (r: i32)
        requires
            i32::MIN <= self.spec_code_start() <= i32::MAX,
        ensures
            r == self.spec_code_start(),
    {
        self.base.header.data_offset + self.code_header.code_offset
    }

    /// The position in the image that code addresses count from, whatever
    /// its size.
    pub fn code_base(&self) -> (r: i64)
        ensures
            r == self.spec_code_start(),
    {
        self.base.header.data_offset as i64 + self.code_header.code_offset as i64
    }
}

/// The `.dbg.info` section.
#[derive(Debug)]
pub struct SMXDebugInfoSection {
    info: DebugInfoHeader,
}

impl View for SMXDebugInfoSection {
    type V = DebugInfoHeader;

    closed spec fn view(&self) -> DebugInfoHeader {
        self.info
    }
}

impl SMXDebugInfoSection {
    pub fn new(header: &SMXHeader, section: &SectionEntry) -> (r: Result<Self, Error>)
        requires
            section@.within(header.data@.len()),
        ensures
            match r {
                Ok(s) => debug_info_header(section_bytes(header.data@, section@)) == Ok::<
                    DebugInfoHeader,
                    Error,
                >(s@),
                Err(e) => debug_info_header(section_bytes(header.data@, section@)) == Err::<
                    DebugInfoHeader,
                    Error,
                >(e),
            },
    {
        let data = section_data(header, section);
        let info = DebugInfoHeader::new(data.as_slice())?;
        Ok(SMXDebugInfoSection { info })
    }

    pub fn file_count(&self) -> (r: i32)
        ensures
            r == self@.file_count,
    {
        self.info.file_count
    }

    pub fn line_count(&self) -> (r: i32)
        ensures
            r == self@.line_count,
    {
        self.info.line_count
    }

    pub fn symbol_count(&self) -> (r: i32)
        ensures
            r == self@.symbol_count,
    {
        self.info.symbol_count
    }

    pub fn array_count(&self) -> (r: i32)
        ensures
            r == self@.array_count,
    {
        self.info.array_count
    }
}

/// Where a search by halving ends that starts with `low` and `high` and
/// looks for the last of `addresses` that is not above `addr`: `low` once
/// the two are neighbours.
pub open spec fn bisect(addresses: Seq<u32>, addr: u32, low: int, high: int) -> int
    decreases high - low,
{
    if high - low <= 1 {
        low
    } else {
        let mid = (low + high) / 2;
        if addresses[mid] <= addr {
            bisect(addresses, addr, mid, high)
        } else {
            bisect(addresses, addr, low, mid)
        }
    }
}

/// Whether `addresses` rise, equal neighbours allowed.
pub open spec fn ascending(addresses: Seq<u32>) -> bool {
    forall|i: int, j: int| 0 <= i <= j < addresses.len() ==> addresses[i] <= addresses[j]
}

/// The row that a search over all of `addresses` ends at, or -1.
pub open spec fn last_not_above(addresses: Seq<u32>, addr: u32) -> int {
    bisect(addresses, addr, -1, addresses.len() as int)
}

proof fn lemma_bisect(addresses: Seq<u32>, addr: u32, low: int, high: int)
    requires
        ascending(addresses),
        -1 <= low < high <= addresses.len(),
        low >= 0 ==> addresses[low] <= addr,
        high < addresses.len() ==> addresses[high] > addr,
    ensures
        low <= bisect(addresses, addr, low, high) < high,
        bisect(addresses, addr, low, high) >= 0 ==> addresses[bisect(addresses, addr, low, high)]
            <= addr,
        bisect(addresses, addr, low, high) + 1 < addresses.len() ==> addresses[bisect(
            addresses,
            addr,
            low,
            high,
        ) + 1] > addr,
    decreases high - low,
{
    if high - low > 1 {
        let mid = (low + high) / 2;
        if addresses[mid] <= addr {
            lemma_bisect(addresses, addr, mid, high);
        } else {
            lemma_bisect(addresses, addr, low, mid);
        }
    }
}

/// Over rising addresses the search ends at the last row whose address is
/// not above `addr`: every row up to it is not above, every later row is.
/// It ends at -1 where the first row is above already.
pub proof fn lemma_last_not_above(addresses: Seq<u32>, addr: u32)
    requires
        ascending(addresses),
    ensures
        -1 <= last_not_above(addresses, addr) < addresses.len(),
        forall|i: int| 0 <= i <= last_not_above(addresses, addr) ==> addresses[i] <= addr,
        forall|i: int|
            last_not_above(addresses, addr) < i < addresses.len() ==> addresses[i] > addr,
{
    if addresses.len() > 0 {
        lemma_bisect(addresses, addr, -1, addresses.len() as int);
    }
}

/// The addresses of the rows `rows`.
pub open spec fn file_addresses(rows: Seq<DebugFileEntry>) -> Seq<u32> {
    rows.map_values(|e: DebugFileEntry| e.address)
}

/// The addresses of the rows `rows`.
pub open spec fn line_addresses(rows: Seq<DebugLineEntry>) -> Seq<u32> {
    rows.map_values(|e: DebugLineEntry| e.address)
}

/// The `.dbg.files` table, whose rows rise by address.
#[derive(Debug)]
pub struct SMXDebugFilesTable {
    entries: Vec<DebugFileEntry>,
}

impl View for SMXDebugFilesTable {
    type V = Seq<DebugFileEntry>;

    closed spec fn view(&self) -> Seq<DebugFileEntry> {
        self.entries@
    }
}

impl SMXDebugFilesTable {
    #[verifier::type_invariant]
    spec fn inv(&self) -> bool {
        self.entries@.len() <= i32::MAX / 8
    }

    pub fn new(header: &SMXHeader, section: &SectionEntry, names: &mut SMXNameTable) -> (r: Result<
        Self,
        Error,
    >)
        requires
            section@.within(header.data@.len()),
            old(names).wf(),
        ensures
            final(names).wf(),
            final(names).pool() == old(names).pool(),
            final(names).section() == old(names).section(),
            match r {
                Ok(t) => named_rows(
                    section_bytes(header.data@, section@),
                    section.size as int,
                    old(names).pool(),
                ) == Ok::<Seq<NameRow>, Error>(rows_of(t@)),
                Err(e) => named_rows(
                    section_bytes(header.data@, section@),
                    section.size as int,
                    old(names).pool(),
                ) == Err::<Seq<NameRow>, Error>(e),
            },
            r matches Ok(t) ==> t@.len() == section.size / DebugFileEntry::SIZE,
            section.size % DebugFileEntry::SIZE != 0 ==> r matches Err(Error::InvalidSize),
    {
        let data = section_data(header, section);
        let entries = DebugFileEntry::new(data.as_slice(), section, names)?;
        Ok(SMXDebugFilesTable { entries })
    }

    /// The name of the file whose code holds `addr`: that of the row at
    /// which the search by halving ends.
    pub fn find_file(&self, addr: u32) -> (r: Option<String>)
        ensures
            last_not_above(file_addresses(self@), addr) < 0 ==> r is None,
            last_not_above(file_addresses(self@), addr) >= 0 ==> r == Some(
                self@[last_not_above(file_addresses(self@), addr)].name,
            ),
    {
        proof {
            use_type_invariant(self);
        }
        let ghost addresses = file_addresses(self.entries@);
        let mut high: i32 = self.entries.len() as i32;
        let mut low: i32 = -1;
        while high - low > 1
            invariant
                -1 <= low < high <= self.entries@.len() <= i32::MAX / 8,
                addresses == file_addresses(self.entries@),
                last_not_above(addresses, addr) == bisect(addresses, addr, low as int, high as int),
            decreases high - low,
        {
            let mid = (low + high) / 2;
            if self.entries[mid as usize].address <= addr {
                low = mid;
            } else {
                high = mid;
            }
        }
        if low == -1 {
            return None;
        }
        Some(self.entries[low as usize].name.clone())
    }

    /// A copy of the rows.
    pub fn entries(&self) -> (r: Vec<DebugFileEntry>)
        ensures
            r@ == self@,
    {
        let r = self.entries.clone();
        assert(r@ =~= self.entries@);
        r
    }

    /// A copy of row `index`.
    pub fn get_entry(&self, index: usize) -> (r: DebugFileEntry)
        requires
            index < self@.len(),
        ensures
            r == self@[index as int],
    {
        self.entries[index].clone()
    }

    pub fn len(&self) -> (r: usize)
        ensures
            r == self@.len(),
    {
        self.entries.len()
    }

    pub fn is_empty(&self) -> (r: bool)
        ensures
            r == (self@.len() == 0),
    {
        self.entries.len() == 0
    }
}

/// The line number, counted from one, that a row with `line` stands for.
pub open spec fn shown_line(line: u32) -> u32 {
    if line < u32::MAX {
        (line + 1) as u32
    } else {
        0
    }
}

/// The `.dbg.lines` table, whose rows rise by address.
#[derive(Debug)]
pub struct SMXDebugLinesTable {
    entries: Vec<DebugLineEntry>,
}

impl View for SMXDebugLinesTable {
    type V = Seq<DebugLineEntry>;

    closed spec fn view(&self) -> Seq<DebugLineEntry> {
        self.entries@
    }
}

impl SMXDebugLinesTable {
    #[verifier::type_invariant]
    spec fn inv(&self) -> bool {
        self.entries@.len() <= i32::MAX / 8
    }

    pub fn new(header: &SMXHeader, section: &SectionEntry) -> (r: Result<Self, Error>)
        requires
            section@.within(header.data@.len()),
        ensures
            match r {
                Ok(t) => line_rows(section_bytes(header.data@, section@), section.size as int)
                    == Ok::<Seq<DebugLineEntry>, Error>(t@),
                Err(e) => line_rows(section_bytes(header.data@, section@), section.size as int)
                    == Err::<Seq<DebugLineEntry>, Error>(e),
            },
            r matches Ok(t) ==> t@.len() == section.size / DebugLineEntry::SIZE,
            section.size % DebugLineEntry::SIZE != 0 ==> r matches Err(Error::InvalidSize),
    {
        let data = section_data(header, section);
        let entries = DebugLineEntry::new(data.as_slice(), section)?;
        Ok(SMXDebugLinesTable { entries })
    }

    /// The line, counted from one, whose code holds `addr`: that of the row
    /// at which the search by halving ends.
    pub fn find_file(&self, addr: u32) -> (r: Option<u32>)
        ensures
            last_not_above(line_addresses(self@), addr) < 0 ==> r is None,
            last_not_above(line_addresses(self@), addr) >= 0 ==> r == Some(
                shown_line(self@[last_not_above(line_addresses(self@), addr)].line),
            ),
    {
        proof {
            use_type_invariant(self);
        }
        let ghost addresses = line_addresses(self.entries@);
        let mut high: i32 = self.entries.len() as i32;
        let mut low: i32 = -1;
        while high - low > 1
            invariant
                -1 <= low < high <= self.entries@.len() <= i32::MAX / 8,
                addresses == line_addresses(self.entries@),
                last_not_above(addresses, addr) == bisect(addresses, addr, low as int, high as int),
            decreases high - low,
        {
            let mid = (low + high) / 2;
            if self.entries[mid as usize].address <= addr {
                low = mid;
            } else {
                high = mid;
            }
        }
        if low == -1 {
            return None;
        }
        Some(self.entries[low as usize].line.wrapping_add(1))
    }

    /// A copy of the rows.
    pub fn entries(&self) -> (r: Vec<DebugLineEntry>)
        ensures
            r@ == self@,
    {
        let r = self.entries.clone();
        assert(r@ =~= self.entries@);
        r
    }

    /// A copy of row `index`.
    pub fn get_entry(&self, index: usize) -> (r: DebugLineEntry)
        requires
            index < self@.len(),
        ensures
            r == self@[index as int],
    {
        self.entries[index]
    }

    pub fn len(&self) -> (r: usize)
        ensures
            r == self@.len(),
    {
        self.entries.len()
    }

    pub fn is_empty(&self) -> (r: bool)
        ensures
            r == (self@.len() == 0),
    {
        self.entries.len() == 0
    }
}

} // verus!
