//! Encoded types as text: the byte codes of the encoding, and the decoder
//! that walks them.

use vstd::prelude::*;
use vstd::string::StringExecFns;
use crate::bytes::as_signed;
use crate::errors::{eof, Error, IoError};
use crate::file::SMXFile;
use crate::headers::{SMXHeader, SectionEntry};
use crate::leb128::{leb_end, leb_i32, lemma_leb_end, read_leb128};
use crate::sections::{section_bytes, section_data};
use crate::rtti::texts;
use crate::text::{decimal, decimal_text};

verus! {

/// The byte codes of the type encoding.
pub struct CB;

impl CB {
    pub const BOOL: u8 = 0x01;

    pub const INT32: u8 = 0x06;

    pub const FLOAT32: u8 = 0x0c;

    pub const CHAR8: u8 = 0x0e;

    pub const ANY: u8 = 0x10;

    pub const TOPFUNCTION: u8 = 0x11;

    pub const FIXEDARRAY: u8 = 0x30;

    pub const ARRAY: u8 = 0x31;

    pub const FUNCTION: u8 = 0x32;

    pub const ENUM: u8 = 0x42;

    pub const TYPEDEF: u8 = 0x43;

    pub const TYPESET: u8 = 0x44;

    pub const STRUCT: u8 = 0x45;

    pub const ENUMSTRUCT: u8 = 0x46;

    pub const VOID: u8 = 0x70;

    pub const VARIADIC: u8 = 0x71;

    pub const BYREF: u8 = 0x72;

    pub const CONST: u8 = 0x73;

    pub const TYPEID_INLINE: u8 = 0x0;

    pub const TYPEID_COMPLEX: u8 = 0x1;

    /// Reads the unsigned LEB128 number at `offset` of `bytes` and moves
    /// `offset` behind it. Where the buffer ends before the number does, or
    /// the offset lies outside the buffer, the offset stays.
    pub fn decode_u32(bytes: &[u8], offset: &mut i32) -> (r: Result<i32, Error>)
        requires
            bytes@.len() <= i32::MAX,
        ensures
            match r {
                Ok(v) => leb_end(bytes@, *old(offset) as int) == Some(*final(offset) as int) && v
                    == leb_i32(bytes@, *old(offset) as int),
                Err(e) => e == eof() && leb_end(bytes@, *old(offset) as int) is None
                    && *final(offset) == *old(offset),
            },
    {
        if *offset < 0 {
            return Err(Error::Io(IoError::UnexpectedEof));
        }
        let (value, next) = read_leb128(bytes, *offset as usize)?;
        proof {
            lemma_leb_end(bytes@, *offset as int);
        }
        *offset = next as i32;
        Ok(as_signed(value))
    }
}

/// The names that encoded types refer to by index.
pub struct TypeNames {
    pub enums: Seq<Seq<char>>,
    pub typedefs: Seq<Seq<char>>,
    pub typesets: Seq<Seq<char>>,
    pub classdefs: Seq<Seq<char>>,
    pub enum_structs: Seq<Seq<char>>,
}

/// A decoded type: its text, the position behind its encoding, and whether
/// a `const` marker was met that the enclosing type has to show.
pub struct Decoded {
    pub text: Seq<char>,
    pub next: int,
    pub is_const: bool,
}

/// The text of the primitive type with code `code`.
pub open spec fn primitive(code: u8) -> Option<Seq<char>> {
    if code == CB::BOOL {
        Some("bool"@)
    } else if code == CB::INT32 {
        Some("int"@)
    } else if code == CB::FLOAT32 {
        Some("float"@)
    } else if code == CB::CHAR8 {
        Some("char"@)
    } else if code == CB::ANY {
        Some("any"@)
    } else if code == CB::TOPFUNCTION {
        Some("Function"@)
    } else {
        None
    }
}

/// The table of names that the code `code` of a named type indexes.
pub open spec fn named_table(n: TypeNames, code: u8) -> Option<Seq<Seq<char>>> {
    if code == CB::ENUM {
        Some(n.enums)
    } else if code == CB::TYPEDEF {
        Some(n.typedefs)
    } else if code == CB::TYPESET {
        Some(n.typesets)
    } else if code == CB::STRUCT {
        Some(n.classdefs)
    } else if code == CB::ENUMSTRUCT {
        Some(n.enum_structs)
    } else {
        None
    }
}

/// A named type: the entry of `table` whose index is the number at `pos`.
pub open spec fn named_type(table: Seq<Seq<char>>, b: Seq<u8>, pos: int, is_const: bool) -> Result<
    Decoded,
    Error,
> {
    match leb_end(b, pos) {
        None => Err(eof()),
        Some(next) => if 0 <= leb_i32(b, pos) < table.len() {
            Ok(Decoded { text: table[leb_i32(b, pos) as int], next, is_const })
        } else {
            Err(Error::InvalidIndex)
        },
    }
}

/// The type encoded at `pos` of `b`, without the `const` that it may have
/// to show. A leading `const` marker is noted; that of the element type of
/// an array is handed up.
pub open spec fn decode_at(n: TypeNames, b: Seq<u8>, pos: int) -> Result<Decoded, Error>
    decreases b.len() - pos, 0nat,
{
    if pos < 0 || pos >= b.len() {
        Err(eof())
    } else {
        let is_const = b[pos] == CB::CONST;
        let at = if is_const {
            pos + 1
        } else {
            pos
        };
        if at >= b.len() {
            Err(eof())
        } else {
            let code = b[at];
            let body = at + 1;
            if primitive(code) is Some {
                Ok(Decoded { text: primitive(code)->0, next: body, is_const })
            } else if named_table(n, code) is Some {
                named_type(named_table(n, code)->0, b, body, is_const)
            } else if code == CB::FIXEDARRAY {
                match leb_end(b, body) {
                    None => Err(eof()),
                    Some(inner_at) => {
                        proof {
                            lemma_leb_end(b, body);
                        }
                        match decode_at(n, b, inner_at) {
                            Err(e) => Err(e),
                            Ok(inner) => Ok(
                                Decoded {
                                    text: inner.text + "["@ + decimal_text(leb_i32(b, body) as int)
                                        + "]"@,
                                    next: inner.next,
                                    is_const: is_const || inner.is_const,
                                },
                            ),
                        }
                    },
                }
            } else if code == CB::ARRAY {
                match decode_at(n, b, body) {
                    Err(e) => Err(e),
                    Ok(inner) => Ok(
                        Decoded {
                            text: inner.text + "[]"@,
                            next: inner.next,
                            is_const: is_const || inner.is_const,
                        },
                    ),
                }
            } else if code == CB::FUNCTION {
                match function_at(n, b, body) {
                    Err(e) => Err(e),
                    Ok(f) => Ok(Decoded { text: f.text, next: f.next, is_const }),
                }
            } else {
                Ok(
                    Decoded {
                        text: "unknown type code: "@ + decimal_text(code as int),
                        next: body,
                        is_const,
                    },
                )
            }
        }
    }
}

/// The type encoded at `pos` of `b` as it is shown: with `const ` in front
/// where a marker was met.
pub open spec fn decode_new_at(n: TypeNames, b: Seq<u8>, pos: int) -> Result<Decoded, Error>
    decreases b.len() - pos, 1nat,
{
    match decode_at(n, b, pos) {
        Err(e) => Err(e),
        Ok(d) => Ok(
            Decoded {
                text: if d.is_const {
                    "const "@ + d.text
                } else {
                    d.text
                },
                next: d.next,
                is_const: false,
            },
        ),
    }
}

/// The texts of `count` arguments encoded from `pos` of `b` on, and the
/// position behind the last. An argument that a by-reference marker
/// precedes is shown with `&` behind it.
///
/// A decoded type ends behind its start, as `lemma_decoded_advances` shows;
/// the definition says so where it goes on behind one, which is what lets
/// it go on.
pub open spec fn args_at(n: TypeNames, b: Seq<u8>, pos: int, count: nat) -> Result<
    (Seq<Seq<char>>, int),
    Error,
>
    decreases b.len() - pos, count + 2,
{
    if count == 0 {
        Ok((Seq::empty(), pos))
    } else if pos < 0 || pos >= b.len() {
        Err(eof())
    } else {
        let by_ref = b[pos] == CB::BYREF;
        let at = if by_ref {
            pos + 1
        } else {
            pos
        };
        match decode_new_at(n, b, at) {
            Err(e) => Err(e),
            Ok(d) => if !(pos < d.next <= b.len()) {
                Err(eof())
            } else {
                match args_at(n, b, d.next, (count - 1) as nat) {
                    Err(e) => Err(e),
                    Ok((rest, next)) => Ok(
                        (
                            seq![
                                if by_ref {
                                    d.text + "&"@
                                } else {
                                    d.text
                                },
                            ] + rest,
                            next,
                        ),
                    ),
                }
            },
        }
    }
}

/// `parts` with `, ` between them.
pub open spec fn joined(parts: Seq<Seq<char>>) -> Seq<char>
    decreases parts.len(),
{
    if parts.len() == 0 {
        Seq::empty()
    } else if parts.len() == 1 {
        parts[0]
    } else {
        joined(parts.drop_last()) + ", "@ + parts.last()
    }
}

/// The text of a function type.
pub open spec fn function_text(ret: Seq<char>, args: Seq<Seq<char>>, variadic: bool) -> Seq<char> {
    "function "@ + ret + " ("@ + joined(args) + (if variadic {
        "..."@
    } else {
        Seq::empty()
    }) + ")"@
}

/// The function type encoded at `pos` of `b`: the number of arguments, an
/// optional variadic marker, the return type or the void marker, and the
/// arguments.
///
/// As for the arguments, the definition says that the return type ends
/// behind its start; `lemma_decoded_advances` shows that it always does.
pub open spec fn function_at(n: TypeNames, b: Seq<u8>, pos: int) -> Result<Decoded, Error>
    decreases b.len() - pos, 0nat,
{
    if pos < 0 || pos + 1 >= b.len() {
        Err(eof())
    } else {
        let argc = b[pos];
        let variadic = b[pos + 1] == CB::VARIADIC;
        let at = if variadic {
            pos + 2
        } else {
            pos + 1
        };
        if at >= b.len() {
            Err(eof())
        } else {
            let ret = if b[at] == CB::VOID {
                Ok(Decoded { text: "void"@, next: at + 1, is_const: false })
            } else {
                decode_new_at(n, b, at)
            };
            match ret {
                Err(e) => Err(e),
                Ok(r) => if !(pos < r.next <= b.len()) {
                    Err(eof())
                } else {
                    match args_at(n, b, r.next, argc as nat) {
                        Err(e) => Err(e),
                        Ok((args, next)) => Ok(
                            Decoded {
                                text: function_text(r.text, args, variadic),
                                next,
                                is_const: false,
                            },
                        ),
                    }
                },
            }
        }
    }
}


/// The function type with return type `ret` whose arguments were decoded as
/// `args`.
pub open spec fn function_of(
    ret: Seq<char>,
    variadic: bool,
    args: Result<(Seq<Seq<char>>, int), Error>,
) -> Result<Decoded, Error> {
    match args {
        Err(e) => Err(e),
        Ok((found, next)) => Ok(
            Decoded { text: function_text(ret, found, variadic), next, is_const: false },
        ),
    }
}

/// `rest` with `front` before its texts.
pub open spec fn with_front(front: Seq<Seq<char>>, rest: Result<(Seq<Seq<char>>, int), Error>)
    -> Result<(Seq<Seq<char>>, int), Error> {
    match rest {
        Err(e) => Err(e),
        Ok((found, next)) => Ok((front + found, next)),
    }
}

/// Puts `, ` between `parts`.
pub fn join_parts(parts: &Vec<String>) -> (s: String)
    ensures
        s@ == joined(texts(parts@)),
{
    let mut s = String::from_str("");
    let mut i: usize = 0;
    proof {
        reveal_strlit("");
        assert(texts(parts@).take(0) =~= Seq::<Seq<char>>::empty());
        assert(s@ =~= Seq::<char>::empty());
    }
    while i < parts.len()
        invariant
            i <= parts@.len(),
            s@ == joined(texts(parts@).take(i as int)),
        decreases parts@.len() - i,
    {
        let ghost before = texts(parts@).take(i as int);
        let ghost after = texts(parts@).take(i + 1);
        if i > 0 {
            s.append(", ");
        }
        s.append(parts[i].as_str());
        proof {
            assert(after.drop_last() =~= before);
            assert(after.last() == parts@[i as int]@);
            if i == 0 {
                assert(s@ =~= parts@[0]@);
            }
        }
        i = i + 1;
    }
    assert(texts(parts@).take(parts@.len() as int) =~= texts(parts@));
    s
}

/// A decoder at a position of an encoded type.
pub struct TypeBuilder<'a> {
    /// The container whose tables give named types their names.
    pub file: &'a SMXFile,
    /// The buffer that holds the encoding.
    pub bytes: &'a [u8],
    /// The position of the decoder.
    pub offset: usize,
    /// Whether the type that is being decoded has met a `const` marker.
    pub is_const: bool,
}

impl<'a> TypeBuilder<'a> {
    pub fn new(file: &'a SMXFile, bytes: &'a [u8], offset: usize) -> (r: Self)
        ensures
            r.file == file,
            r.bytes == bytes,
            r.offset == offset,
            !r.is_const,
    {
        TypeBuilder { file, bytes, offset, is_const: false }
    }

    /// What holds when a step leaves the decoder's surroundings alone.
    pub open spec fn same_input(&self, other: &Self) -> bool {
        self.file == other.file && self.bytes == other.bytes
    }

    /// Steps over the byte at the position if it is `b`.
    fn accept(&mut self, b: u8) -> (r: Result<bool, Error>)
        ensures
            final(self).same_input(old(self)),
            final(self).is_const == old(self).is_const,
            match r {
                Ok(hit) => old(self).offset < old(self).bytes@.len() && hit == (old(self).bytes@[old(self).offset as int] == b) && final(self).offset == old(self).offset
                    + (if hit {
                    1int
                } else {
                    0int
                }),
                Err(e) => e == eof() && old(self).offset >= old(self).bytes@.len() && final(self).offset == old(self).offset,
            },
    {
        if self.offset >= self.bytes.len() {
            return Err(Error::Io(IoError::UnexpectedEof));
        }
        if self.bytes[self.offset] != b {
            return Ok(false);
        }
        self.offset = self.offset + 1;
        Ok(true)
    }

    /// The name that the number at the position selects in the table of the
    /// named type with code `code`.
    fn named(&mut self, code: u8) -> (r: Result<String, Error>)
        requires
            named_table(old(self).file.type_names(), code) is Some,
        ensures
            final(self).same_input(old(self)),
            final(self).is_const == old(self).is_const,
            match r {
                Ok(s) => named_type(
                    named_table(old(self).file.type_names(), code)->0,
                    old(self).bytes@,
                    old(self).offset as int,
                    false,
                ) matches Ok(d) && s@ == d.text && final(self).offset == d.next && old(self).offset < d.next <= old(self).bytes@.len(),
                Err(e) => named_type(
                    named_table(old(self).file.type_names(), code)->0,
                    old(self).bytes@,
                    old(self).offset as int,
                    false,
                ) == Err::<Decoded, Error>(e),
            },
    {
        let (raw, next) = read_leb128(self.bytes, self.offset)?;
        proof {
            lemma_leb_end(self.bytes@, self.offset as int);
        }
        self.offset = next;
        let index = as_signed(raw);
        if index < 0 {
            return Err(Error::InvalidIndex);
        }
        let k = index as usize;
        if code == CB::ENUM {
            match &self.file.rtti_enums {
                Some(t) => {
                    let rows = t.enums_ref();
                    if k < rows.len() {
                        return Ok(rows[k].clone());
                    }
                },
                None => {},
            }
        } else if code == CB::TYPEDEF {
            match &self.file.rtti_typedefs {
                Some(t) => {
                    let rows = t.typedefs_ref();
                    if k < rows.len() {
                        return Ok(rows[k].name.clone());
                    }
                },
                None => {},
            }
        } else if code == CB::TYPESET {
            match &self.file.rtti_typesets {
                Some(t) => {
                    let rows = t.typesets_ref();
                    if k < rows.len() {
                        return Ok(rows[k].name.clone());
                    }
                },
                None => {},
            }
        } else if code == CB::STRUCT {
            match &self.file.rtti_classdefs {
                Some(t) => {
                    let rows = t.defs_ref();
                    if k < rows.len() {
                        return Ok(rows[k].name.clone());
                    }
                },
                None => {},
            }
        } else {
            match &self.file.rtti_enum_structs {
                Some(t) => {
                    let rows = t.entries_ref();
                    if k < rows.len() {
                        return Ok(rows[k].name.clone());
                    }
                },
                None => {},
            }
        }
        Err(Error::InvalidIndex)
    }

    /// Decodes the type at the position and shows it with `const ` in front
    /// where it met a marker. The marker of the type around it is kept.
    pub fn decode_new(&mut self) -> (r: Result<String, Error>)
        ensures
            final(self).same_input(old(self)),
            match r {
                Ok(s) => decode_new_at(
                    old(self).file.type_names(),
                    old(self).bytes@,
                    old(self).offset as int,
                ) matches Ok(d) && s@ == d.text && final(self).offset == d.next && old(self).offset < d.next <= old(self).bytes@.len() && final(self).is_const == old(self).is_const,
                Err(e) => decode_new_at(
                    old(self).file.type_names(),
                    old(self).bytes@,
                    old(self).offset as int,
                ) == Err::<Decoded, Error>(e),
            },
        decreases old(self).bytes@.len() - old(self).offset, 1nat,
    {
        let was_const = self.is_const;
        self.is_const = false;
        let result = self.decode()?;
        let text = if self.is_const {
            let mut t = String::from_str("const ");
            t.append(result.as_str());
            t
        } else {
            result
        };
        self.is_const = was_const;
        Ok(text)
    }

    /// Decodes the type at the position. A `const` marker that the type has
    /// to show is noted in `is_const`.
    pub fn decode(&mut self) -> (r: Result<String, Error>)
        ensures
            final(self).same_input(old(self)),
            match r {
                Ok(s) => decode_at(
                    old(self).file.type_names(),
                    old(self).bytes@,
                    old(self).offset as int,
                ) matches Ok(d) && s@ == d.text && final(self).offset == d.next && old(self).offset < d.next <= old(self).bytes@.len() && final(self).is_const == (old(self).is_const || d.is_const),
                Err(e) => decode_at(
                    old(self).file.type_names(),
                    old(self).bytes@,
                    old(self).offset as int,
                ) == Err::<Decoded, Error>(e),
            },
        decreases old(self).bytes@.len() - old(self).offset, 0nat,
    {
        let marked = self.accept(CB::CONST)?;
        self.is_const = self.is_const || marked;
        if self.offset >= self.bytes.len() {
            return Err(Error::Io(IoError::UnexpectedEof));
        }
        let b: u8 = self.bytes[self.offset];
        self.offset = self.offset + 1;
        if b == CB::BOOL {
            Ok(String::from_str("bool"))
        } else if b == CB::INT32 {
            Ok(String::from_str("int"))
        } else if b == CB::FLOAT32 {
            Ok(String::from_str("float"))
        } else if b == CB::CHAR8 {
            Ok(String::from_str("char"))
        } else if b == CB::ANY {
            Ok(String::from_str("any"))
        } else if b == CB::TOPFUNCTION {
            Ok(String::from_str("Function"))
        } else if b == CB::ENUM || b == CB::TYPEDEF || b == CB::TYPESET || b == CB::STRUCT || b
            == CB::ENUMSTRUCT {
            self.named(b)
        } else if b == CB::FIXEDARRAY {
            let (raw, next) = read_leb128(self.bytes, self.offset)?;
            proof {
                lemma_leb_end(self.bytes@, self.offset as int);
            }
            self.offset = next;
            let mut text = self.decode()?;
            text.append("[");
            text.append(decimal(as_signed(raw)).as_str());
            text.append("]");
            Ok(text)
        } else if b == CB::ARRAY {
            let mut text = self.decode()?;
            text.append("[]");
            Ok(text)
        } else if b == CB::FUNCTION {
            self.decode_function()
        } else {
            let mut text = String::from_str("unknown type code: ");
            text.append(decimal(b as i32).as_str());
            Ok(text)
        }
    }

    /// Decodes the function type whose argument count is at the position.
    pub fn decode_function(&mut self) -> (r: Result<String, Error>)
        ensures
            final(self).same_input(old(self)),
            match r {
                Ok(s) => function_at(
                    old(self).file.type_names(),
                    old(self).bytes@,
                    old(self).offset as int,
                ) matches Ok(d) && s@ == d.text && final(self).offset == d.next && old(self).offset < d.next <= old(self).bytes@.len() && final(self).is_const == old(self).is_const,
                Err(e) => function_at(
                    old(self).file.type_names(),
                    old(self).bytes@,
                    old(self).offset as int,
                ) == Err::<Decoded, Error>(e),
            },
        decreases old(self).bytes@.len() - old(self).offset, 0nat,
    {
        let ghost names = self.file.type_names();
        let ghost b = self.bytes@;
        let ghost start = self.offset as int;
        if self.offset >= self.bytes.len() {
            return Err(Error::Io(IoError::UnexpectedEof));
        }
        let argc: u32 = self.bytes[self.offset] as u32;
        self.offset = self.offset + 1;
        let variadic = self.accept(CB::VARIADIC)?;
        let is_void = self.accept(CB::VOID)?;
        let return_type = if is_void {
            String::from_str("void")
        } else {
            self.decode_new()?
        };
        let ghost first = self.offset as int;
        let ghost shown_return = return_type@;
        let mut argv: Vec<String> = Vec::new();
        let mut i: u32 = 0;
        assert(texts(argv@) =~= Seq::<Seq<char>>::empty());
        assert(with_front(texts(argv@), args_at(names, b, first, argc as nat)) == args_at(
            names,
            b,
            first,
            argc as nat,
        )) by {
            match args_at(names, b, first, argc as nat) {
                Ok((found, next)) => {
                    assert(texts(argv@) + found =~= found);
                },
                Err(e) => {},
            }
        }
        assert(function_at(names, b, start) == function_of(
            shown_return,
            variadic,
            args_at(names, b, first, argc as nat),
        ));
        while i < argc
            invariant
                i <= argc,
                function_at(names, b, start) == function_of(
                    shown_return,
                    variadic,
                    args_at(names, b, first, argc as nat),
                ),
                self.file == old(self).file,
                self.bytes == old(self).bytes,
                self.is_const == old(self).is_const,
                names == self.file.type_names(),
                b == self.bytes@,
                start < self.offset <= b.len(),
                start == old(self).offset,
                argv@.len() == i,
                args_at(names, b, first, argc as nat) == with_front(
                    texts(argv@),
                    args_at(names, b, self.offset as int, (argc - i) as nat),
                ),
            decreases argc - i,
        {
            let ghost before = texts(argv@);
            let ghost here = self.offset as int;
            let is_byref = self.accept(CB::BYREF)?;
            let mut text = self.decode_new()?;
            if is_byref {
                text.append("&");
            }
            argv.push(text);
            proof {
                let rest = args_at(names, b, self.offset as int, (argc - i - 1) as nat);
                let shown = argv@[i as int]@;
                assert(args_at(names, b, here, (argc - i) as nat) == with_front(seq![shown], rest));
                assert(texts(argv@) =~= before.push(shown));
                match rest {
                    Ok((found, next)) => {
                        assert(before + (seq![shown] + found) =~= before.push(shown) + found);
                    },
                    Err(e) => {},
                }
            }
            i = i + 1;
        }
        let mut signature = String::from_str("function ");
        signature.append(return_type.as_str());
        signature.append(" (");
        signature.append(join_parts(&argv).as_str());
        if variadic {
            signature.append("...");
        }
        signature.append(")");
        proof {
            assert(texts(argv@) + Seq::<Seq<char>>::empty() =~= texts(argv@));
            assert(signature@ =~= function_text(shown_return, texts(argv@), variadic));
        }
        Ok(signature)
    }
}


/// The kind of a type id: its low four bits.
pub open spec fn type_id_kind(type_id: i32) -> i32 {
    type_id & 0xf
}

/// The payload of a type id: its upper 28 bits.
pub open spec fn type_id_payload(type_id: i32) -> i32 {
    (type_id >> 4) & 0x0fff_ffff
}

/// The four bytes of `payload`, lowest first.
pub open spec fn payload_bytes(payload: i32) -> Seq<u8> {
    seq![
        (payload & 0xff) as u8,
        ((payload >> 8) & 0xff) as u8,
        ((payload >> 16) & 0xff) as u8,
        ((payload >> 24) & 0xff) as u8,
    ]
}

/// The text of a decoded type, or its error.
pub open spec fn text_of(d: Result<Decoded, Error>) -> Result<Seq<char>, Error> {
    match d {
        Ok(d) => Ok(d.text),
        Err(e) => Err(e),
    }
}

/// The text of what was decoded, or its error.
pub open spec fn shown(r: Result<String, Error>) -> Result<Seq<char>, Error> {
    match r {
        Ok(s) => Ok(s@),
        Err(e) => Err(e),
    }
}

/// The type that `type_id` stands for. An inline id holds the encoding in
/// its payload; a complex id holds the offset of the encoding in `data`.
/// An id of another kind is shown as such.
pub open spec fn type_text(n: TypeNames, data: Seq<u8>, type_id: i32) -> Result<Seq<char>, Error> {
    if type_id_kind(type_id) == CB::TYPEID_INLINE {
        text_of(decode_new_at(n, payload_bytes(type_id_payload(type_id)), 0))
    } else if type_id_kind(type_id) != CB::TYPEID_COMPLEX {
        Ok("Unknown type_id kind: "@ + decimal_text(type_id_kind(type_id) as int))
    } else {
        text_of(decode_new_at(n, data, type_id_payload(type_id) as int))
    }
}

/// The texts of `count` types encoded from `pos` of `b` on.
pub open spec fn types_at(n: TypeNames, b: Seq<u8>, pos: int, count: nat) -> Result<
    Seq<Seq<char>>,
    Error,
>
    decreases count,
{
    if count == 0 {
        Ok(Seq::empty())
    } else {
        match decode_new_at(n, b, pos) {
            Err(e) => Err(e),
            Ok(d) => match types_at(n, b, d.next, (count - 1) as nat) {
                Err(e) => Err(e),
                Ok(rest) => Ok(seq![d.text] + rest),
            },
        }
    }
}

/// The types of the typeset encoded at `offset` of `b`: a count, and that
/// many types behind it. A count that is negative as a signed number counts
/// as zero.
pub open spec fn typeset_types(n: TypeNames, b: Seq<u8>, offset: int) -> Result<
    Seq<Seq<char>>,
    Error,
> {
    match leb_end(b, offset) {
        None => Err(eof()),
        Some(first) => types_at(
            n,
            b,
            first,
            if leb_i32(b, offset) > 0 {
                leb_i32(b, offset) as nat
            } else {
                0
            },
        ),
    }
}

/// `rest` with `front` before its texts.
pub open spec fn texts_after(front: Seq<Seq<char>>, rest: Result<Seq<Seq<char>>, Error>) -> Result<
    Seq<Seq<char>>,
    Error,
> {
    match rest {
        Err(e) => Err(e),
        Ok(found) => Ok(front + found),
    }
}

/// The `rtti.data` section: the encodings of the types that other tables
/// refer to.
#[derive(Debug)]
pub struct SMXRTTIData {
    bytes: Vec<u8>,
}

impl View for SMXRTTIData {
    type V = Seq<u8>;

    closed spec fn view(&self) -> Seq<u8> {
        self.bytes@
    }
}

impl SMXRTTIData {
    #[verifier::type_invariant]
    spec fn inv(&self) -> bool {
        self.bytes@.len() <= i32::MAX
    }

    pub fn new(header: &SMXHeader, section: &SectionEntry) -> (r: Self)
        requires
            section@.within(header.data@.len()),
        ensures
            r@ == section_bytes(header.data@, section@),
    {
        SMXRTTIData { bytes: section_data(header, section) }
    }

    /// The type that `type_id` stands for, with names from the tables of
    /// `file`.
    pub fn type_from_id(&self, file: &SMXFile, type_id: i32) -> (r: Result<String, Error>)
        ensures
            shown(r) == type_text(file.type_names(), self@, type_id),
    {
        let kind: i32 = type_id & 0xf;
        let mut payload: i32 = (type_id >> 4) & 0x0fff_ffff;
        assert(0 <= (type_id & 0xf) <= 15) by (bit_vector);
        assert(0 <= ((type_id >> 4) & 0x0fff_ffff)) by (bit_vector);
        if kind == CB::TYPEID_INLINE as i32 {
            assert(0 <= (payload & 0xff) <= 255) by (bit_vector);
            assert(0 <= ((payload >> 8) & 0xff) <= 255) by (bit_vector);
            assert(0 <= ((payload >> 16) & 0xff) <= 255) by (bit_vector);
            assert(0 <= ((payload >> 24) & 0xff) <= 255) by (bit_vector);
            let temp: Vec<u8> = vec![
                (payload & 0xff) as u8,
                ((payload >> 8) & 0xff) as u8,
                ((payload >> 16) & 0xff) as u8,
                ((payload >> 24) & 0xff) as u8,
            ];
            assert(temp@ =~= payload_bytes(payload));
            let mut builder = TypeBuilder::new(file, temp.as_slice(), 0);
            return builder.decode_new();
        }
        if kind != CB::TYPEID_COMPLEX as i32 {
            let mut text = String::from_str("Unknown type_id kind: ");
            text.append(decimal(kind).as_str());
            return Ok(text);
        }
        self.build_type_name(file, &mut payload)
    }

    /// The function type encoded at `offset`, with names from the tables of
    /// `file`.
    pub fn function_type_from_offset(&self, file: &SMXFile, offset: i32) -> (r: Result<
        String,
        Error,
    >)
        ensures
            shown(r) == text_of(function_at(file.type_names(), self@, offset as int)),
    {
        if offset < 0 {
            return Err(Error::Io(IoError::UnexpectedEof));
        }
        let mut builder = TypeBuilder::new(file, self.bytes.as_slice(), offset as usize);
        builder.decode_function()
    }

    /// The types of the typeset encoded at `offset`, with names from the
    /// tables of `file`.
    pub fn typeset_types_from_offset(&self, file: &SMXFile, offset: i32) -> (r: Result<
        Vec<String>,
        Error,
    >)
        ensures
            match r {
                Ok(v) => typeset_types(file.type_names(), self@, offset as int) == Ok::<
                    Seq<Seq<char>>,
                    Error,
                >(texts(v@)),
                Err(e) => typeset_types(file.type_names(), self@, offset as int) == Err::<
                    Seq<Seq<char>>,
                    Error,
                >(e),
            },
    {
        if offset < 0 {
            return Err(Error::Io(IoError::UnexpectedEof));
        }
        let (raw, first) = read_leb128(self.bytes.as_slice(), offset as usize)?;
        let count = as_signed(raw);
        let ghost names = file.type_names();
        let ghost wanted: nat = if count > 0 {
            count as nat
        } else {
            0
        };
        let mut types: Vec<String> = Vec::new();
        let mut builder = TypeBuilder::new(file, self.bytes.as_slice(), first);
        let mut i: i32 = 0;
        assert(texts(types@) =~= Seq::<Seq<char>>::empty());
        assert(texts_after(texts(types@), types_at(names, self@, first as int, wanted))
            == types_at(names, self@, first as int, wanted)) by {
            match types_at(names, self@, first as int, wanted) {
                Ok(found) => {
                    assert(Seq::<Seq<char>>::empty() + found =~= found);
                },
                Err(e) => {},
            }
        }
        while i < count
            invariant
                0 <= i,
                count > 0 ==> i <= count,
                wanted == (if count > 0 {
                    count as nat
                } else {
                    0
                }),
                names == file.type_names(),
                builder.file == file,
                builder.bytes@ == self@,
                types@.len() == i,
                typeset_types(names, self@, offset as int) == texts_after(
                    texts(types@),
                    types_at(names, self@, builder.offset as int, (wanted - i) as nat),
                ),
            decreases count - i,
        {
            let ghost before = texts(types@);
            let text = match builder.decode_new() {
                Ok(text) => text,
                Err(e) => {
                    return Err(e);
                },
            };
            types.push(text);
            proof {
                let shown = types@[i as int]@;
                assert(texts(types@) =~= before.push(shown));
                match types_at(names, self@, builder.offset as int, (wanted - i - 1) as nat) {
                    Ok(found) => {
                        assert(before + (seq![shown] + found) =~= before.push(shown) + found);
                    },
                    Err(e) => {},
                }
            }
            i = i + 1;
        }
        proof {
            assert(texts(types@) + Seq::<Seq<char>>::empty() =~= texts(types@));
        }
        Ok(types)
    }

    /// Decodes the type at `offset` and moves `offset` behind it. Where that
    /// fails the offset stays.
    fn build_type_name(&self, file: &SMXFile, offset: &mut i32) -> (r: Result<String, Error>)
        requires
            *old(offset) >= 0,
        ensures
            shown(r) == text_of(decode_new_at(file.type_names(), self@, *old(offset) as int)),
            match r {
                Ok(_) => *final(offset) == decode_new_at(
                    file.type_names(),
                    self@,
                    *old(offset) as int,
                )->Ok_0.next,
                Err(_) => *final(offset) == *old(offset),
            },
    {
        proof {
            use_type_invariant(self);
        }
        let mut builder = TypeBuilder::new(file, self.bytes.as_slice(), *offset as usize);
        let text = builder.decode_new()?;
        *offset = builder.offset as i32;
        Ok(text)
    }
}


/// The code of an enum followed by the index `k` stands for the `k`-th name
/// of the table of enums.
pub proof fn lemma_enum_is_looked_up(n: TypeNames, b: Seq<u8>, pos: int)
    requires
        0 <= pos < b.len(),
        b[pos] == CB::ENUM,
        leb_end(b, pos + 1) is Some,
        0 <= leb_i32(b, pos + 1) < n.enums.len(),
    ensures
        decode_at(n, b, pos) == Ok::<Decoded, Error>(
            Decoded {
                text: n.enums[leb_i32(b, pos + 1) as int],
                next: leb_end(b, pos + 1)->0,
                is_const: false,
            },
        ),
{
    lemma_leb_end(b, pos + 1);
}

/// A type that was decoded ends behind its start and inside the buffer.
pub proof fn lemma_decoded_advances(n: TypeNames, b: Seq<u8>, pos: int)
    ensures
        decode_at(n, b, pos) matches Ok(d) ==> pos < d.next <= b.len(),
        decode_new_at(n, b, pos) matches Ok(d) ==> pos < d.next <= b.len(),
    decreases b.len() - pos, 0nat,
{
    if 0 <= pos < b.len() {
        let at = if b[pos] == CB::CONST {
            pos + 1
        } else {
            pos
        };
        if at < b.len() {
            let code = b[at];
            let body = at + 1;
            if primitive(code) is Some {
            } else if named_table(n, code) is Some {
                lemma_leb_end(b, body);
            } else if code == CB::FIXEDARRAY {
                lemma_leb_end(b, body);
                if leb_end(b, body) is Some {
                    lemma_decoded_advances(n, b, leb_end(b, body)->0);
                }
            } else if code == CB::ARRAY {
                lemma_decoded_advances(n, b, body);
            } else if code == CB::FUNCTION {
                lemma_function_advances(n, b, body);
            }
        }
    }
}

/// A function type that was decoded ends behind its start and inside the
/// buffer.
pub proof fn lemma_function_advances(n: TypeNames, b: Seq<u8>, pos: int)
    ensures
        function_at(n, b, pos) matches Ok(d) ==> pos < d.next <= b.len(),
    decreases b.len() - pos, 0nat,
{
    if 0 <= pos && pos + 1 < b.len() {
        let at = if b[pos + 1] == CB::VARIADIC {
            pos + 2
        } else {
            pos + 1
        };
        if at < b.len() {
            let ret = if b[at] == CB::VOID {
                Ok(Decoded { text: "void"@, next: at + 1, is_const: false })
            } else {
                decode_new_at(n, b, at)
            };
            match ret {
                Ok(r) => {
                    if pos < r.next <= b.len() {
                        lemma_args_advance(n, b, r.next, b[pos] as nat);
                    }
                },
                Err(_) => {},
            }
        }
    }
}

/// Arguments that were decoded end at or behind their start and inside the
/// buffer.
pub proof fn lemma_args_advance(n: TypeNames, b: Seq<u8>, pos: int, count: nat)
    requires
        pos <= b.len(),
    ensures
        args_at(n, b, pos, count) matches Ok((_, next)) ==> pos <= next <= b.len(),
    decreases count,
{
    if count > 0 && 0 <= pos < b.len() {
        let at = if b[pos] == CB::BYREF {
            pos + 1
        } else {
            pos
        };
        match decode_new_at(n, b, at) {
            Ok(d) => {
                if pos < d.next <= b.len() {
                    lemma_args_advance(n, b, d.next, (count - 1) as nat);
                }
            },
            Err(_) => {},
        }
    }
}

} // verus!
