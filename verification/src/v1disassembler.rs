//! The disassembler: the instructions of one procedure, read from the code
//! of a container, and the functions that its calls enter.

use vstd::prelude::*;
use vstd::string::StringExecFns;
use crate::bytes::{as_unsigned, i32_at, unsigned32, ByteReader};
use crate::errors::{eof, Error, IoError};
use crate::file::SMXFile;
use crate::sections::{sub_name, SMXCalledFunctionsTable, SMXCodeV1Section, SMXPublicTable};
use crate::v1opcodes::V1OPCode;
use crate::v1types::{CalledFunctionEntry, PublicEntry};

verus! {

/// What a parameter of an instruction stands for.
#[derive(Debug, Clone, Copy, PartialEq, Eq)]
pub enum V1Param {
    Constant,
    Stack,
    Jump,
    Function,
    Native,
    Address,
}

/// What is known of an instruction whatever its parameters are.
#[derive(Debug)]
pub struct V1OPCodeInfo {
    pub opcode: V1OPCode,
    /// The mnemonic.
    pub name: String,
    /// What the parameters stand for.
    pub params: Vec<V1Param>,
}

impl Clone for V1OPCodeInfo {
    fn clone(&self) -> (r: Self)
        ensures
            r.opcode == self.opcode,
            r.name == self.name,
            r.params@ == self.params@,
    {
        let params = self.params.clone();
        assert(params@ =~= self.params@);
        V1OPCodeInfo { opcode: self.opcode, name: self.name.clone(), params }
    }
}

impl V1OPCodeInfo {
    /// Whether this is the description of its instruction.
    pub open spec fn describes(&self) -> bool {
        self.name@ == self.opcode.spec_name() && self.params@ == self.opcode.spec_params()
    }

    /// The description of `opcode`.
    pub fn of(opcode: V1OPCode) -> (r: Self)
        ensures
            r.opcode == opcode,
            r.describes(),
    {
        V1OPCodeInfo { opcode, name: String::from_str(opcode.name()), params: opcode.params() }
    }
}

/// An instruction in the code of a procedure.
#[derive(Debug)]
pub struct V1Instruction {
    /// The offset of the instruction in the code.
    pub address: i32,
    pub info: V1OPCodeInfo,
    /// The parameters, as the code holds them.
    pub params: Vec<i32>,
}

/// An instruction: where it is, which it is, and its parameters.
pub struct InstructionModel {
    pub address: i32,
    pub opcode: V1OPCode,
    pub params: Seq<i32>,
}

impl View for V1Instruction {
    type V = InstructionModel;

    open spec fn view(&self) -> InstructionModel {
        InstructionModel { address: self.address, opcode: self.info.opcode, params: self.params@ }
    }
}

impl Clone for V1Instruction {
    fn clone(&self) -> (r: Self)
        ensures
            r@ == self@,
            r.info.name == self.info.name,
            r.info.params@ == self.info.params@,
    {
        let params = self.params.clone();
        assert(params@ =~= self.params@);
        V1Instruction { address: self.address, info: self.info.clone(), params }
    }
}

/// The models of the instructions `v`.
pub open spec fn instruction_models(v: Seq<V1Instruction>) -> Seq<InstructionModel> {
    v.map_values(|i: V1Instruction| i@)
}

/// The code word at position `at` of the image.
pub open spec fn word_at(image: Seq<u8>, at: int) -> Result<i32, Error> {
    if at < 0 || at + 4 > image.len() {
        Err(eof())
    } else {
        Ok(i32_at(image, at))
    }
}

/// Word `k` of the code words from position `at` of the image on.
pub open spec fn word_of(image: Seq<u8>, at: int) -> spec_fn(int) -> Result<i32, Error> {
    |k: int| word_at(image, at + 4 * k)
}

/// The `count` code words from position `at` of the image on.
pub open spec fn words_at(image: Seq<u8>, at: int, count: nat) -> Result<Seq<i32>, Error> {
    crate::rows::collect(word_of(image, at), count)
}

/// The instruction at offset `cursor` of the code that starts at `base` of
/// the image, and the offset behind it; or `None` where a procedure starts
/// or ends there.
///
/// An instruction is its code word and the parameters that its description
/// lists. A case table is its code word, the number of cases, the address of
/// the default case, and a value and an address for each case; a negative
/// number of cases is refused. A code word that stands for no instruction is
/// refused as an invalid index.
pub open spec fn instruction_at(image: Seq<u8>, base: int, cursor: int) -> Result<
    Option<(InstructionModel, int)>,
    Error,
> {
    match word_at(image, base + cursor) {
        Err(e) => Err(e),
        Ok(word) => if word == V1OPCode::PROC.spec_value() || word
            == V1OPCode::ENDPROC.spec_value() {
            Ok(None)
        } else {
            match V1OPCode::spec_from_word(word) {
                None => Err(Error::InvalidIndex),
                Some(opcode) => if opcode == V1OPCode::CASETBL {
                    match word_at(image, base + cursor + 4) {
                        Err(e) => Err(e),
                        Ok(cases) => if cases < 0 {
                            Err(Error::InvalidSize)
                        } else {
                            match words_at(image, base + cursor + 8, (2 * cases + 1) as nat) {
                                Err(e) => Err(e),
                                Ok(rest) => Ok(
                                    Some(
                                        (
                                            InstructionModel {
                                                address: cursor as i32,
                                                opcode,
                                                params: seq![cases] + rest,
                                            },
                                            cursor + 12 + 8 * cases,
                                        ),
                                    ),
                                ),
                            }
                        },
                    }
                } else {
                    match words_at(image, base + cursor + 4, opcode.spec_params().len()) {
                        Err(e) => Err(e),
                        Ok(params) => Ok(
                            Some(
                                (
                                    InstructionModel { address: cursor as i32, opcode, params },
                                    cursor + 4 + 4 * opcode.spec_params().len(),
                                ),
                            ),
                        ),
                    }
                },
            }
        },
    }
}

/// How far `cursor` is from `limit`, and zero behind it.
pub open spec fn distance(limit: int, cursor: int) -> nat {
    if cursor < limit {
        (limit - cursor) as nat
    } else {
        0
    }
}

/// The instructions from offset `cursor` on, up to the next start or end of
/// a procedure or up to `limit`, whichever comes first. An instruction that
/// starts before `limit` is read whole.
pub open spec fn instructions_from(image: Seq<u8>, base: int, limit: int, cursor: int) -> Result<
    Seq<InstructionModel>,
    Error,
>
    decreases distance(limit, cursor),
{
    if cursor >= limit {
        Ok(Seq::empty())
    } else {
        match instruction_at(image, base, cursor) {
            Err(e) => Err(e),
            Ok(None) => Ok(Seq::empty()),
            Ok(Some((instruction, next))) => match instructions_from(image, base, limit, next) {
                Err(e) => Err(e),
                Ok(rest) => Ok(seq![instruction] + rest),
            },
        }
    }
}

/// The error of a procedure whose first code word is not `proc`.
pub open spec fn not_a_procedure() -> Error {
    Error::Other("Function does not start with PROC")
}

/// The instructions of the procedure at offset `proc_offset` of the code
/// that starts at `base` of the image and is `limit` bytes long.
pub open spec fn procedure(image: Seq<u8>, base: int, limit: int, proc_offset: int) -> Result<
    Seq<InstructionModel>,
    Error,
> {
    match word_at(image, base + proc_offset) {
        Err(e) => Err(e),
        Ok(word) => if word != V1OPCode::PROC.spec_value() {
            Err(not_a_procedure())
        } else {
            instructions_from(image, base, limit, proc_offset + 4)
        },
    }
}

/// `rest` with `front` before its instructions.
pub open spec fn after(front: Seq<InstructionModel>, rest: Result<Seq<InstructionModel>, Error>)
    -> Result<Seq<InstructionModel>, Error> {
    match rest {
        Err(e) => Err(e),
        Ok(found) => Ok(front + found),
    }
}

/// The code word at position `pos` of `image`.
fn fetch(image: &[u8], pos: usize) -> (r: Result<i32, Error>)
    ensures
        r == word_at(image@, pos as int),
        r is Ok ==> pos + 4 <= image@.len() <= usize::MAX,
{
    let _ = image.len();
    let mut rd = ByteReader::at(image, pos);
    rd.read_i32()
}

/// Appends the `count` code words from position `pos` of `image` on to
/// `params`, and gives the position behind them.
fn fetch_words(image: &[u8], pos: usize, count: usize, params: &mut Vec<i32>) -> (r: Result<
    usize,
    Error,
>)
    ensures
        match r {
            Ok(next) => words_at(image@, pos as int, count as nat) matches Ok(found) && final(params)@ == old(params)@ + found && next == pos + 4 * count && (count > 0 ==> next
                <= image@.len()),
            Err(e) => words_at(image@, pos as int, count as nat) == Err::<Seq<i32>, Error>(e),
        },
{
    let ghost word = word_of(image@, pos as int);
    let mut at: usize = pos;
    let mut k: usize = 0;
    assert(params@ =~= old(params)@ + Seq::<i32>::empty());
    while k < count
        invariant
            k <= count,
            word == word_of(image@, pos as int),
            at == pos + 4 * k,
            k > 0 ==> at <= image@.len(),
            crate::rows::collect(word, k as nat) matches Ok(found) && params@ == old(params)@
                + found,
        decreases count - k,
    {
        let ghost found = crate::rows::collect(word, k as nat)->Ok_0;
        match fetch(image, at) {
            Ok(w) => {
                params.push(w);
                at = at + 4;
            },
            Err(e) => {
                proof {
                    crate::rows::lemma_collect_fails(word, k as nat, count as nat);
                }
                return Err(e);
            },
        }
        proof {
            assert(params@ =~= old(params)@ + found.push(word(k as int)->Ok_0));
        }
        k = k + 1;
    }
    Ok(at)
}

/// The addresses of the functions `rows`.
pub open spec fn public_addresses(rows: Seq<PublicEntry>) -> Seq<u32> {
    rows.map_values(|e: PublicEntry| e.address)
}

/// The addresses of the functions `rows`.
pub open spec fn called_addresses(rows: Seq<CalledFunctionEntry>) -> Seq<u32> {
    rows.map_values(|e: CalledFunctionEntry| e.address)
}

/// Whether a function at `addr` is public or was found before.
pub open spec fn known_function(publics: Seq<u32>, called: Seq<u32>, addr: u32) -> bool {
    publics.contains(addr) || called.contains(addr)
}

/// The function that `instruction` calls and that is not known yet.
pub open spec fn new_target(publics: Seq<u32>, called: Seq<u32>, instruction: InstructionModel)
    -> Option<u32> {
    if instruction.opcode == V1OPCode::CALL && instruction.params.len() > 0 && !known_function(
        publics,
        called,
        unsigned32(instruction.params[0]),
    ) {
        Some(unsigned32(instruction.params[0]))
    } else {
        None
    }
}

/// The addresses of the functions that are found once `instructions` were
/// looked at in order, where `called` were found before: each call of a
/// function that is not known by then adds its target.
pub open spec fn with_calls(publics: Seq<u32>, called: Seq<u32>, instructions: Seq<InstructionModel>)
    -> Seq<u32>
    decreases instructions.len(),
{
    if instructions.len() == 0 {
        called
    } else {
        let before = with_calls(publics, called, instructions.drop_last());
        match new_target(publics, before, instructions.last()) {
            Some(target) => before.push(target),
            None => before,
        }
    }
}

/// Whether every function of `rows` has the name that is made up for its
/// address.
pub open spec fn named_by_address(rows: Seq<CalledFunctionEntry>) -> bool {
    forall|k: int| 0 <= k < rows.len() ==> (#[trigger] rows[k]).name@ == sub_name(rows[k].address)
}

/// Whether one of `publics` or `called` is at `addr`.
#[verifier::loop_isolation(false)]
pub fn is_known(publics: &Option<SMXPublicTable>, called: &Option<SMXCalledFunctionsTable>, addr: u32)
    -> (r: bool)
    ensures
        r == known_function(
            match publics {
                Some(t) => public_addresses(t@),
                None => Seq::empty(),
            },
            match called {
                Some(t) => called_addresses(t@),
                None => Seq::empty(),
            },
            addr,
        ),
{
    match publics {
        Some(t) => {
            let rows = t.entries_ref();
            let ghost addresses = public_addresses(rows@);
            let mut i: usize = 0;
            while i < rows.len()
                invariant
                    i <= rows@.len(),
                    addresses == public_addresses(rows@),
                    forall|j: int| 0 <= j < i ==> addresses[j] != addr,
                decreases rows@.len() - i,
            {
                if rows[i].address == addr {
                    assert(addresses.len() == rows@.len());
                    assert(addresses[i as int] == addr);
                    assert(addresses.contains(addr));
                    return true;
                }
                i = i + 1;
            }
        },
        None => {},
    }
    match called {
        Some(t) => {
            let rows = t.entries_ref();
            let ghost addresses = called_addresses(rows@);
            let mut i: usize = 0;
            while i < rows.len()
                invariant
                    i <= rows@.len(),
                    addresses == called_addresses(rows@),
                    forall|j: int| 0 <= j < i ==> addresses[j] != addr,
                decreases rows@.len() - i,
            {
                if rows[i].address == addr {
                    assert(addresses.len() == rows@.len());
                    assert(addresses[i as int] == addr);
                    assert(addresses.contains(addr));
                    return true;
                }
                i = i + 1;
            }
        },
        None => {},
    }
    false
}

/// A disassembler for one procedure in the code of a container.
pub struct V1Disassembler<'a> {
    /// The image of the container.
    pub image: &'a [u8],
    /// The position in the image that code addresses count from.
    pub code_start: i64,
    /// The offset in the code of the procedure to read.
    pub proc_offset: i32,
    /// The size of the code: no instruction is read that starts at or
    /// behind this offset.
    pub cursor_limit: i32,
}

impl<'a> V1Disassembler<'a> {
    /// A disassembler for the procedure at `proc_offset` of the code of
    /// `code`.
    pub fn new(code: &'a SMXCodeV1Section, proc_offset: i32) -> (r: Self)
        ensures
            r.image@ == code.image(),
            r.code_start == code.spec_code_start(),
            r.proc_offset == proc_offset,
            r.cursor_limit == code.spec_header().code_size,
    {
        V1Disassembler {
            image: code.image_ref(),
            code_start: code.code_base(),
            proc_offset,
            cursor_limit: code.header().code_size,
        }
    }

    /// Reads the instructions of the procedure.
    pub fn diassemble_internal(&self) -> (r: Result<Vec<V1Instruction>, Error>)
        ensures
            match r {
                Ok(v) => procedure(
                    self.image@,
                    self.code_start as int,
                    self.cursor_limit as int,
                    self.proc_offset as int,
                ) == Ok::<Seq<InstructionModel>, Error>(instruction_models(v@)) && forall|k: int|
                    0 <= k < v@.len() ==> (#[trigger] v@[k]).info.describes(),
                Err(e) => procedure(
                    self.image@,
                    self.code_start as int,
                    self.cursor_limit as int,
                    self.proc_offset as int,
                ) == Err::<Seq<InstructionModel>, Error>(e),
            },
    {
        let image = self.image;
        let base = self.code_start;
        let limit = self.cursor_limit;
        let ghost start = self.proc_offset + 4;
        let total = image.len();
        let first_at: i128 = base as i128 + self.proc_offset as i128;
        if first_at < 0 || first_at > total as i128 {
            return Err(Error::Io(IoError::UnexpectedEof));
        }
        let mut pos: usize = first_at as usize;
        let first = fetch(image, pos)?;
        if first != V1OPCode::PROC.value() as i32 {
            return Err(Error::Other("Function does not start with PROC"));
        }
        pos = pos + 4;
        let mut insns: Vec<V1Instruction> = Vec::new();
        assert(instruction_models(insns@) =~= Seq::<InstructionModel>::empty());
        assert(after(
            instruction_models(insns@),
            instructions_from(image@, base as int, limit as int, start),
        ) == instructions_from(image@, base as int, limit as int, start)) by {
            match instructions_from(image@, base as int, limit as int, start) {
                Ok(found) => {
                    assert(Seq::<InstructionModel>::empty() + found =~= found);
                },
                Err(e) => {},
            }
        }
        loop
            invariant
                image@ == self.image@,
                base == self.code_start,
                limit == self.cursor_limit,
                start == self.proc_offset + 4,
                procedure(image@, base as int, limit as int, self.proc_offset as int)
                    == instructions_from(image@, base as int, limit as int, start),
                start <= pos - base,
                pos <= image@.len() <= usize::MAX,
                instructions_from(image@, base as int, limit as int, start) == after(
                    instruction_models(insns@),
                    instructions_from(image@, base as int, limit as int, pos - base),
                ),
                forall|k: int| 0 <= k < insns@.len() ==> (#[trigger] insns@[k]).info.describes(),
            ensures
                instructions_from(image@, base as int, limit as int, start) == Ok::<
                    Seq<InstructionModel>,
                    Error,
                >(instruction_models(insns@)),
                forall|k: int| 0 <= k < insns@.len() ==> (#[trigger] insns@[k]).info.describes(),
            decreases image@.len() - pos,
        {
            let ghost before = instruction_models(insns@);
            let ghost cursor = pos - base;
            let offset: i128 = pos as i128 - base as i128;
            if offset >= limit as i128 {
                proof {
                    assert(before + Seq::<InstructionModel>::empty() =~= before);
                }
                break ;
            }
            let address = offset as i32;
            let word = fetch(image, pos)?;
            if word == V1OPCode::PROC.value() as i32 || word == V1OPCode::ENDPROC.value() as i32 {
                proof {
                    assert(before + Seq::<InstructionModel>::empty() =~= before);
                }
                break ;
            }
            let opcode = match V1OPCode::from_word(word) {
                Some(opcode) => opcode,
                None => {
                    return Err(Error::InvalidIndex);
                },
            };
            let info = V1OPCodeInfo::of(opcode);
            let mut params: Vec<i32> = Vec::new();
            let next = match opcode {
                V1OPCode::CASETBL => {
                    let cases = fetch(image, pos + 4)?;
                    if cases < 0 {
                        return Err(Error::InvalidSize);
                    }
                    params.push(cases);
                    if (cases as u64) > (usize::MAX / 2 - 1) as u64 {
                        proof {
                            lemma_too_many_words(image@, pos + 8, (2 * cases + 1) as nat);
                        }
                        return Err(Error::Io(IoError::UnexpectedEof));
                    }
                    fetch_words(image, pos + 8, 2 * (cases as usize) + 1, &mut params)?
                },
                _ => {
                    let next = fetch_words(image, pos + 4, info.params.len(), &mut params)?;
                    assert(params@ =~= words_at(
                        image@,
                        pos + 4,
                        opcode.spec_params().len(),
                    )->Ok_0);
                    next
                },
            };
            insns.push(V1Instruction { address, info, params });
            proof {
                let step = instruction_at(image@, base as int, cursor);
                assert(step is Ok && step->Ok_0 is Some);
                let (instruction, after_it) = step->Ok_0->0;
                assert(after_it == next - base);
                assert(insns@.last()@ == instruction);
                assert(instruction_models(insns@) =~= before.push(instruction));
                match instructions_from(image@, base as int, limit as int, next - base) {
                    Ok(found) => {
                        assert(before + (seq![instruction] + found) =~= before.push(instruction)
                            + found);
                    },
                    Err(e) => {},
                }
            }
            pos = next;
        }
        Ok(insns)
    }

    /// Reads the instructions of the procedure at `proc_offset` of the code
    /// of `file`, and adds each function that they call and that is not
    /// known to the functions that were found. Where the procedure cannot be
    /// read, nothing is added.
    pub fn diassemble(file: &mut SMXFile, proc_offset: i32) -> (r: Result<Vec<V1Instruction>, Error>)
        requires
            old(file).codev1 is Some,
            old(file).called_functions is Some,
        ensures
            *final(file) == (SMXFile {
                called_functions: final(file).called_functions,
                ..*old(file)
            }),
            final(file).called_functions is Some,
            match r {
                Ok(v) => old(file).procedure_at(proc_offset) == Ok::<Seq<InstructionModel>, Error>(
                    instruction_models(v@),
                ) && (forall|k: int| 0 <= k < v@.len() ==> (#[trigger] v@[k]).info.describes())
                    && final(file).called_addresses() == with_calls(
                    old(file).public_addresses(),
                    old(file).called_addresses(),
                    instruction_models(v@),
                ) && old(file).called_functions->0@.is_prefix_of(final(file).called_functions->0@)
                    && (named_by_address(old(file).called_functions->0@) ==> named_by_address(
                    final(file).called_functions->0@,
                )),
                Err(e) => old(file).procedure_at(proc_offset) == Err::<
                    Seq<InstructionModel>,
                    Error,
                >(e) && final(file).called_functions == old(file).called_functions,
            },
    {
        let insns = match &file.codev1 {
            Some(code) => {
                let disassembler = V1Disassembler::new(code, proc_offset);
                disassembler.diassemble_internal()?
            },
            None => {
                return Err(Error::Io(IoError::UnexpectedEof));
            },
        };
        let ghost publics = file.public_addresses();
        let ghost found_before = file.called_functions->0@;
        let ghost models = instruction_models(insns@);
        let mut i: usize = 0;
        assert(models.take(0) =~= Seq::<InstructionModel>::empty());
        while i < insns.len()
            invariant
                i <= insns@.len(),
                models == instruction_models(insns@),
                publics == old(file).public_addresses(),
                found_before == old(file).called_functions->0@,
                *file == (SMXFile { called_functions: file.called_functions, ..*old(file) }),
                file.called_functions is Some,
                file.called_addresses() == with_calls(
                    publics,
                    old(file).called_addresses(),
                    models.take(i as int),
                ),
                found_before.is_prefix_of(file.called_functions->0@),
                named_by_address(found_before) ==> named_by_address(file.called_functions->0@),
            decreases insns@.len() - i,
        {
            let ghost table_before = file.called_functions->0@;
            let ghost reached = models.take(i as int);
            proof {
                assert(models.take(i + 1).drop_last() =~= reached);
                assert(models.take(i + 1).last() == insns@[i as int]@);
            }
            if insns[i].info.opcode.value() == V1OPCode::CALL.value() && insns[i].params.len() > 0 {
                proof {
                    V1OPCode::lemma_numbering(insns@[i as int].info.opcode, V1OPCode::CALL.spec_value());
                }
                let target = as_unsigned(insns[i].params[0]);
                if !is_known(&file.publics, &file.called_functions, target) {
                    match &mut file.called_functions {
                        Some(table) => {
                            table.add_function(target);
                        },
                        None => {},
                    }
                    proof {
                        let table_after = file.called_functions->0@;
                        assert(table_after.subrange(0, table_before.len() as int) == table_before);
                        assert(called_addresses(table_after) =~= called_addresses(
                            table_before,
                        ).push(target));
                        assert(table_before.is_prefix_of(table_after));
                        if named_by_address(table_before) {
                            assert forall|k: int| 0 <= k < table_after.len() implies (
                            #[trigger] table_after[k]).name@ == sub_name(table_after[k].address) by {
                                if k < table_before.len() {
                                    assert(table_after[k] == table_after.subrange(
                                        0,
                                        table_before.len() as int,
                                    )[k]);
                                }
                            }
                        }
                    }
                }
            } else {
                proof {
                    V1OPCode::lemma_numbering(V1OPCode::CALL, insns@[i as int].info.opcode.spec_value());
                }
            }
            i = i + 1;
        }
        assert(models.take(insns@.len() as int) =~= models);
        Ok(insns)
    }
}

/// More code words than the address space holds cannot all be read.
proof fn lemma_too_many_words(image: Seq<u8>, at: int, count: nat)
    requires
        image.len() <= usize::MAX,
        at >= 0,
        4 * count > usize::MAX,
    ensures
        words_at(image, at, count) == Err::<Seq<i32>, Error>(eof()),
{
    lemma_words_fail(image, at, count);
}

/// Reading code words fails, and with an underrun, where the last of them
/// lies behind the end of the image.
proof fn lemma_words_fail(image: Seq<u8>, at: int, count: nat)
    requires
        at >= 0,
        count > 0,
        at + 4 * count > image.len(),
    ensures
        words_at(image, at, count) == Err::<Seq<i32>, Error>(eof()),
    decreases count,
{
    let word = word_of(image, at);
    if count == 1 {
    } else {
        if at + 4 * (count - 1) > image.len() {
            lemma_words_fail(image, at, (count - 1) as nat);
        } else {
            assert(word(count - 1) == Err::<i32, Error>(eof()));
            match crate::rows::collect(word, (count - 1) as nat) {
                Ok(found) => {},
                Err(e) => {
                    lemma_words_error(image, at, (count - 1) as nat);
                },
            }
        }
    }
}

/// Reading code words fails with an underrun or not at all.
proof fn lemma_words_error(image: Seq<u8>, at: int, count: nat)
    ensures
        words_at(image, at, count) matches Err(e) ==> e == eof(),
    decreases count,
{
    if count > 0 {
        lemma_words_error(image, at, (count - 1) as nat);
    }
}


/// Whether `instruction` has the parameters that its kind asks for: a case
/// table its number of cases, which is not negative, and two parameters for
/// the default case and each case; another instruction what its description
/// lists. A start or end of a procedure is no instruction.
pub open spec fn well_shaped(instruction: InstructionModel) -> bool {
    &&& instruction.opcode != V1OPCode::PROC
    &&& instruction.opcode != V1OPCode::ENDPROC
    &&& if instruction.opcode == V1OPCode::CASETBL {
        instruction.params.len() >= 2 && instruction.params[0] >= 0 && instruction.params.len()
            == 2 * (instruction.params[0] + 1)
    } else {
        instruction.params.len() == instruction.opcode.spec_params().len()
    }
}

/// A case table that was read holds its number of cases first and the
/// address of the default case second, and two parameters for the default
/// case and for each case; the next instruction follows them.
pub proof fn lemma_case_table(image: Seq<u8>, base: int, cursor: int)
    requires
        instruction_at(image, base, cursor) matches Ok(Some((instruction, next)))
            && instruction.opcode == V1OPCode::CASETBL,
    ensures
        instruction_at(image, base, cursor) matches Ok(Some((instruction, next)))
            && instruction.params.len() == 2 * (instruction.params[0] + 1) && Ok::<i32, Error>(
            instruction.params[0],
        ) == word_at(image, base + cursor + 4) && Ok::<i32, Error>(instruction.params[1])
            == word_at(image, base + cursor + 8) && next == cursor + 4 * (instruction.params.len()
            + 1),
{
    let cases = word_at(image, base + cursor + 4)->Ok_0;
    let word_k = word_of(image, base + cursor + 8);
    let rest = words_at(image, base + cursor + 8, (2 * cases + 1) as nat)->Ok_0;
    crate::rows::lemma_collect_ok(word_k, (2 * cases + 1) as nat);
    let params = seq![cases] + rest;
    assert(rest.len() == 2 * cases + 1);
    assert(params[0] == cases);
    assert(params[1] == rest[0]);
    assert(word_k(0) == Ok::<i32, Error>(rest[0]));
    assert(word_k(0) == word_at(image, base + cursor + 8));
}

/// An instruction that was read is well shaped.
pub proof fn lemma_instruction_shape(image: Seq<u8>, base: int, cursor: int)
    requires
        instruction_at(image, base, cursor) matches Ok(Some(_)),
    ensures
        instruction_at(image, base, cursor) matches Ok(Some((instruction, next))) && well_shaped(
            instruction,
        ) && next == cursor + 4 * (instruction.params.len() + 1),
{
    let word = word_at(image, base + cursor)->Ok_0;
    let opcode = V1OPCode::spec_from_word(word)->0;
    V1OPCode::lemma_numbering(opcode, word as u8);
    if opcode == V1OPCode::CASETBL {
        lemma_case_table(image, base, cursor);
    } else {
        crate::rows::lemma_collect_ok(
            word_of(image, base + cursor + 4),
            opcode.spec_params().len(),
        );
    }
}

/// Reading stops where a procedure starts or ends.
pub proof fn lemma_stops_at_boundary(image: Seq<u8>, base: int, limit: int, cursor: int)
    requires
        word_at(image, base + cursor) == Ok::<i32, Error>(V1OPCode::PROC.spec_value() as i32)
            || word_at(image, base + cursor) == Ok::<i32, Error>(
            V1OPCode::ENDPROC.spec_value() as i32,
        ),
    ensures
        instructions_from(image, base, limit, cursor) == Ok::<Seq<InstructionModel>, Error>(
            Seq::empty(),
        ),
{
}

/// Every instruction of a procedure is well shaped; none of them is the
/// start or the end of a procedure.
pub proof fn lemma_instructions_shape(image: Seq<u8>, base: int, limit: int, cursor: int)
    requires
        instructions_from(image, base, limit, cursor) is Ok,
    ensures
        forall|k: int|
            0 <= k < instructions_from(image, base, limit, cursor)->Ok_0.len() ==> well_shaped(
                #[trigger] instructions_from(image, base, limit, cursor)->Ok_0[k],
            ),
    decreases distance(limit, cursor),
{
    if cursor < limit {
        match instruction_at(image, base, cursor) {
            Ok(Some((instruction, next))) => {
                lemma_instruction_shape(image, base, cursor);
                lemma_instructions_shape(image, base, limit, next);
            },
            _ => {},
        }
    }
}

/// Looking at instructions forgets no function that was found.
pub proof fn lemma_with_calls_keeps(
    publics: Seq<u32>,
    called: Seq<u32>,
    instructions: Seq<InstructionModel>,
)
    ensures
        called.is_prefix_of(with_calls(publics, called, instructions)),
    decreases instructions.len(),
{
    if instructions.len() > 0 {
        lemma_with_calls_keeps(publics, called, instructions.drop_last());
    }
}

/// Once instructions were looked at, the target of each call among them is
/// a function that is public or was found.
pub proof fn lemma_calls_are_known(
    publics: Seq<u32>,
    called: Seq<u32>,
    instructions: Seq<InstructionModel>,
    k: int,
)
    requires
        0 <= k < instructions.len(),
        instructions[k].opcode == V1OPCode::CALL,
        instructions[k].params.len() > 0,
    ensures
        known_function(
            publics,
            with_calls(publics, called, instructions),
            unsigned32(instructions[k].params[0]),
        ),
    decreases instructions.len(),
{
    let target = unsigned32(instructions[k].params[0]);
    let before = with_calls(publics, called, instructions.drop_last());
    let after_all = with_calls(publics, called, instructions);
    if k == instructions.len() - 1 {
        if !known_function(publics, before, target) {
            assert(after_all == before.push(target));
            assert(after_all[before.len() as int] == target);
        } else if before.contains(target) {
            let i = choose|i: int| 0 <= i < before.len() && before[i] == target;
            assert(after_all[i] == target);
        }
    } else {
        lemma_calls_are_known(publics, called, instructions.drop_last(), k);
        assert(instructions.drop_last()[k] == instructions[k]);
        if before.contains(target) {
            let i = choose|i: int| 0 <= i < before.len() && before[i] == target;
            assert(after_all[i] == target);
        }
    }
}

} // verus!
