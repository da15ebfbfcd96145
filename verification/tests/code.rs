use smxdasm::errors::{Error, IoError};
use smxdasm::file::SMXFile;
use smxdasm::v1disassembler::{V1Disassembler, V1Instruction, V1OPCodeInfo, V1Param};
use smxdasm::v1opcodes::V1OPCode;

fn code_words(values: &[i64]) -> Vec<u8> {
    let mut out = Vec::new();
    for v in values {
        out.extend_from_slice(&(*v as u32).to_le_bytes());
    }
    out
}

fn op(opcode: V1OPCode) -> i64 {
    opcode.value() as i64
}

/// An uncompressed image with the given sections.
fn code_image(sections: &[(&str, Vec<u8>)]) -> Vec<u8> {
    let count = sections.len();
    let table = 24 + 12 * count;
    let mut strings: Vec<u8> = Vec::new();
    let mut name_offsets = Vec::new();
    for (name, _) in sections {
        name_offsets.push(strings.len() as i32);
        strings.extend_from_slice(name.as_bytes());
        strings.push(0);
    }
    let data_start = table + strings.len();
    let mut contents: Vec<u8> = Vec::new();
    let mut directory: Vec<u8> = Vec::new();
    for (k, (_, bytes)) in sections.iter().enumerate() {
        directory.extend_from_slice(&name_offsets[k].to_le_bytes());
        directory.extend_from_slice(&((data_start + contents.len()) as i32).to_le_bytes());
        directory.extend_from_slice(&(bytes.len() as i32).to_le_bytes());
        contents.extend_from_slice(bytes);
    }
    let total = (data_start + contents.len()) as i32;
    let mut out = Vec::new();
    out.extend_from_slice(&0x5350_4646u32.to_le_bytes());
    out.extend_from_slice(&0x0102u16.to_le_bytes());
    out.push(0);
    out.extend_from_slice(&total.to_le_bytes());
    out.extend_from_slice(&total.to_le_bytes());
    out.push(count as u8);
    out.extend_from_slice(&(table as i32).to_le_bytes());
    out.extend_from_slice(&(data_start as i32).to_le_bytes());
    out.extend_from_slice(&directory);
    out.extend_from_slice(&strings);
    out.extend_from_slice(&contents);
    out
}

/// A `.code` section of version 10 whose blob is `blob`, of which
/// `code_size` bytes count as code.
fn code_section(blob: &[u8], code_size: i32) -> Vec<u8> {
    let mut out = Vec::new();
    out.extend_from_slice(&code_size.to_le_bytes());
    out.push(4);
    out.push(10);
    out.extend_from_slice(&0u16.to_le_bytes());
    out.extend_from_slice(&0i32.to_le_bytes());
    out.extend_from_slice(&16i32.to_le_bytes());
    out.extend_from_slice(blob);
    out
}

/// A container whose first section is the code made of `values`, followed
/// by the other sections. With the code first, code addresses count from
/// the start of the blob.
fn file_with_code(values: &[i64], others: &[(&str, Vec<u8>)]) -> Result<SMXFile, Error> {
    let blob = code_words(values);
    let mut sections = vec![(".code", code_section(&blob, blob.len() as i32))];
    sections.extend(others.iter().cloned());
    SMXFile::new(&code_image(&sections))
}

fn disassemble(values: &[i64], proc_offset: i32) -> Result<Vec<V1Instruction>, Error> {
    let mut file = file_with_code(values, &[]).unwrap();
    V1Disassembler::diassemble(&mut file, proc_offset)
}

fn shape(insns: &[V1Instruction]) -> Vec<(i32, V1OPCode, Vec<i32>)> {
    insns.iter().map(|i| (i.address, i.info.opcode, i.params.clone())).collect()
}

const POOL: &[u8] = b"foo\0bar\0baz\0";

#[test]
fn add_and_retn() {
    let insns = disassemble(&[op(V1OPCode::PROC), op(V1OPCode::ADD), op(V1OPCode::RETN)], 0).unwrap();
    assert_eq!(insns.len(), 2);
    assert_eq!(insns[0].info.opcode, V1OPCode::ADD);
    assert_eq!(insns[1].info.opcode, V1OPCode::RETN);
    assert_eq!(shape(&insns), vec![(4, V1OPCode::ADD, vec![]), (8, V1OPCode::RETN, vec![])]);
    assert_eq!(insns[0].info.name, "add");
    assert_eq!(insns[1].info.name, "retn");
    assert!(insns[0].info.params.is_empty());
}

#[test]
fn proc_and_retn_in_a_container() {
    let mut file = file_with_code(&[op(V1OPCode::PROC), op(V1OPCode::RETN)], &[]).unwrap();
    assert_eq!(file.codev1.as_ref().unwrap().header().code_version, 10);
    let insns = V1Disassembler::diassemble(&mut file, 0).unwrap();
    assert_eq!(shape(&insns), vec![(4, V1OPCode::RETN, vec![])]);
    assert_eq!(file.called_functions.as_ref().unwrap().size(), 0);
}

#[test]
fn a_function_has_to_start_with_proc() {
    let not_proc = Some(Error::Other("Function does not start with PROC"));
    assert_eq!(disassemble(&[op(V1OPCode::ADD), op(V1OPCode::RETN)], 0).err(), not_proc);
    assert_eq!(disassemble(&[op(V1OPCode::PROC), op(V1OPCode::RETN)], 4).err(), not_proc);
    assert_eq!(disassemble(&[op(V1OPCode::ENDPROC)], 0).err(), not_proc);
    assert_eq!(disassemble(&[0], 0).err(), not_proc);
    // The whole word counts, not its low byte alone.
    assert_eq!(disassemble(&[op(V1OPCode::PROC) + 0x100], 0).err(), not_proc);
    assert_eq!(disassemble(&[-1], 0).err(), not_proc);
}

#[test]
fn a_function_outside_the_image_is_an_underrun() {
    let eof = Some(Error::Io(IoError::UnexpectedEof));
    let code = [op(V1OPCode::PROC), op(V1OPCode::RETN)];
    assert_eq!(disassemble(&code, 8).err(), eof);
    assert_eq!(disassemble(&code, 5).err(), eof);
    assert_eq!(disassemble(&code, 1000).err(), eof);
    assert_eq!(disassemble(&code, i32::MAX).err(), eof);
    assert_eq!(disassemble(&code, -100_000).err(), eof);
    assert_eq!(disassemble(&code, i32::MIN).err(), eof);
}

#[test]
fn a_container_without_code_has_nothing_to_disassemble() {
    let image = code_image(&[
        (".names", POOL.to_vec()),
        (".publics", code_words(&[0, 0])),
    ]);
    assert_eq!(SMXFile::new(&image).err(), Some(Error::Io(IoError::UnexpectedEof)));
    let image = code_image(&[(".names", POOL.to_vec()), (".publics", vec![])]);
    let file = SMXFile::new(&image).unwrap();
    assert_eq!(file.publics.as_ref().unwrap().size(), 0);
    assert_eq!(file.called_functions.as_ref().unwrap().size(), 0);
}

#[test]
fn parameters_follow_their_instruction() {
    let insns = disassemble(
        &[
            op(V1OPCode::PROC),
            op(V1OPCode::PUSH_C),
            -5,
            op(V1OPCode::LOAD_S_BOTH),
            8,
            12,
            op(V1OPCode::REBASE),
            1,
            2,
            3,
            op(V1OPCode::PUSH5_C),
            10,
            20,
            30,
            40,
            50,
            op(V1OPCode::SYSREQ_N),
            7,
            2,
            op(V1OPCode::JUMP),
            4,
            op(V1OPCode::RETN),
        ],
        0,
    )
    .unwrap();
    assert_eq!(
        shape(&insns),
        vec![
            (4, V1OPCode::PUSH_C, vec![-5]),
            (12, V1OPCode::LOAD_S_BOTH, vec![8, 12]),
            (24, V1OPCode::REBASE, vec![1, 2, 3]),
            (40, V1OPCode::PUSH5_C, vec![10, 20, 30, 40, 50]),
            (64, V1OPCode::SYSREQ_N, vec![7, 2]),
            (76, V1OPCode::JUMP, vec![4]),
            (84, V1OPCode::RETN, vec![]),
        ]
    );
    assert_eq!(insns[0].info.params, vec![V1Param::Constant]);
    assert_eq!(insns[1].info.params, vec![V1Param::Stack, V1Param::Stack]);
    assert_eq!(insns[2].info.params, vec![V1Param::Address, V1Param::Constant, V1Param::Constant]);
    assert_eq!(insns[4].info.params, vec![V1Param::Native, V1Param::Constant]);
    assert_eq!(insns[5].info.params, vec![V1Param::Jump]);
    assert_eq!(insns[1].info.name, "load.s.both");
    for i in &insns {
        assert_eq!(i.params.len(), i.info.params.len());
    }
}

#[test]
fn a_case_table_holds_two_parameters_for_each_case_and_the_default() {
    let insns = disassemble(
        &[op(V1OPCode::PROC), op(V1OPCode::CASETBL), 2, 100, 7, 200, 8, 300, op(V1OPCode::RETN)],
        0,
    )
    .unwrap();
    assert_eq!(insns.len(), 2);
    let table = &insns[0];
    assert_eq!(table.info.opcode, V1OPCode::CASETBL);
    assert_eq!(table.params.len(), 2 * (2 + 1));
    assert_eq!(table.params[0], 2);
    assert_eq!(table.params[1], 100);
    assert_eq!(table.params, vec![2, 100, 7, 200, 8, 300]);
    assert_eq!(table.info.params, vec![V1Param::Constant, V1Param::Address]);
    assert_eq!(insns[1].address, 32);
    assert_eq!(insns[1].info.opcode, V1OPCode::RETN);
}

#[test]
fn a_case_table_of_any_size() {
    for n in 0..6i64 {
        let mut code = vec![op(V1OPCode::PROC), op(V1OPCode::CASETBL), n, 1000];
        for k in 0..n {
            code.push(k);
            code.push(2000 + k);
        }
        code.push(op(V1OPCode::NOP));
        let insns = disassemble(&code, 0).unwrap();
        assert_eq!(insns.len(), 2);
        assert_eq!(insns[0].params.len() as i64, 2 * (n + 1));
        assert_eq!(insns[0].params[0] as i64, n);
        assert_eq!(insns[0].params[1], 1000);
        assert_eq!(insns[1].info.opcode, V1OPCode::NOP);
        assert_eq!(insns[1].address as i64, 4 + 4 * (2 * (n + 1) + 1));
    }
}

#[test]
fn a_case_table_with_a_bad_count_is_refused() {
    assert_eq!(
        disassemble(&[op(V1OPCode::PROC), op(V1OPCode::CASETBL), -1, 0], 0).err(),
        Some(Error::InvalidSize)
    );
    assert_eq!(
        disassemble(&[op(V1OPCode::PROC), op(V1OPCode::CASETBL), i32::MIN as i64, 0], 0).err(),
        Some(Error::InvalidSize)
    );
    let eof = Some(Error::Io(IoError::UnexpectedEof));
    assert_eq!(disassemble(&[op(V1OPCode::PROC), op(V1OPCode::CASETBL)], 0).err(), eof);
    assert_eq!(disassemble(&[op(V1OPCode::PROC), op(V1OPCode::CASETBL), 0], 0).err(), eof);
    assert_eq!(disassemble(&[op(V1OPCode::PROC), op(V1OPCode::CASETBL), 1, 5, 6], 0).err(), eof);
    assert_eq!(
        disassemble(&[op(V1OPCode::PROC), op(V1OPCode::CASETBL), i32::MAX as i64, 5], 0).err(),
        eof
    );
}

#[test]
fn reading_stops_where_a_procedure_starts_or_ends() {
    let insns = disassemble(
        &[op(V1OPCode::PROC), op(V1OPCode::NOP), op(V1OPCode::ENDPROC), op(V1OPCode::ADD)],
        0,
    )
    .unwrap();
    assert_eq!(shape(&insns), vec![(4, V1OPCode::NOP, vec![])]);
    let code = [
        op(V1OPCode::PROC),
        op(V1OPCode::ZERO_PRI),
        op(V1OPCode::RETN),
        op(V1OPCode::PROC),
        op(V1OPCode::BREAK),
        op(V1OPCode::RETN),
    ];
    let first = disassemble(&code, 0).unwrap();
    assert_eq!(shape(&first), vec![(4, V1OPCode::ZERO_PRI, vec![]), (8, V1OPCode::RETN, vec![])]);
    let second = disassemble(&code, 12).unwrap();
    assert_eq!(shape(&second), vec![(16, V1OPCode::BREAK, vec![]), (20, V1OPCode::RETN, vec![])]);
    for i in first.iter().chain(second.iter()) {
        assert_ne!(i.info.opcode, V1OPCode::PROC);
        assert_ne!(i.info.opcode, V1OPCode::ENDPROC);
    }
    assert!(disassemble(&[op(V1OPCode::PROC), op(V1OPCode::PROC)], 0).unwrap().is_empty());
    assert!(disassemble(&[op(V1OPCode::PROC)], 0).unwrap().is_empty());
}

#[test]
fn reading_stops_at_the_size_of_the_code() {
    let blob = code_words(&[
        op(V1OPCode::PROC),
        op(V1OPCode::NOP),
        op(V1OPCode::PUSH_C),
        9,
        op(V1OPCode::NOP),
    ]);
    // An instruction that starts before the end is read whole.
    for (code_size, count) in [(4, 0), (5, 1), (8, 1), (9, 2), (12, 2), (16, 2), (17, 3), (20, 3)] {
        let image = code_image(&[(".code", code_section(&blob, code_size))]);
        let mut file = SMXFile::new(&image).unwrap();
        let insns = V1Disassembler::diassemble(&mut file, 0).unwrap();
        assert_eq!(insns.len(), count, "code size {}", code_size);
    }
    let image = code_image(&[(".code", code_section(&blob, 1000))]);
    let mut file = SMXFile::new(&image).unwrap();
    assert_eq!(
        V1Disassembler::diassemble(&mut file, 0).err(),
        Some(Error::Io(IoError::UnexpectedEof))
    );
}

#[test]
fn a_word_that_is_no_instruction_is_an_invalid_index() {
    for word in [0i64, 5, 47, 165, 167, 169, 255, 256, 0x12e, -1, i32::MIN as i64] {
        assert_eq!(
            disassemble(&[op(V1OPCode::PROC), word], 0).err(),
            Some(Error::InvalidIndex),
            "word {}",
            word
        );
    }
}

#[test]
fn parameters_that_the_image_lacks_are_an_underrun() {
    let eof = Some(Error::Io(IoError::UnexpectedEof));
    let image = code_image(&[(
        ".code",
        code_section(&code_words(&[op(V1OPCode::PROC), op(V1OPCode::PUSH2_C), 1]), 12),
    )]);
    let mut file = SMXFile::new(&image).unwrap();
    assert_eq!(V1Disassembler::diassemble(&mut file, 0).err(), eof);
    let mut blob = code_words(&[op(V1OPCode::PROC), op(V1OPCode::PUSH_C)]);
    blob.extend_from_slice(&[1, 2, 3]);
    let image = code_image(&[(".code", code_section(&blob, 8))]);
    let mut file = SMXFile::new(&image).unwrap();
    assert_eq!(V1Disassembler::diassemble(&mut file, 0).err(), eof);
}

#[test]
fn a_call_of_an_unknown_function_is_noted() {
    let code = [
        op(V1OPCode::PROC),
        op(V1OPCode::CALL),
        0x1c,
        op(V1OPCode::CALL),
        0x1abc,
        op(V1OPCode::CALL),
        0x1c,
        op(V1OPCode::PROC),
        op(V1OPCode::CALL),
        -4,
        op(V1OPCode::RETN),
    ];
    let mut file = file_with_code(&code, &[]).unwrap();
    assert!(!file.is_function_at_address(0x1c));
    let insns = V1Disassembler::diassemble(&mut file, 0).unwrap();
    assert_eq!(insns.len(), 3);
    assert_eq!(insns[0].info.params, vec![V1Param::Function]);
    let called = file.called_functions.as_ref().unwrap().entries();
    assert_eq!(called.len(), 2);
    assert_eq!((called[0].address, called[0].name.as_str()), (0x1c, "sub_1c"));
    assert_eq!((called[1].address, called[1].name.as_str()), (0x1abc, "sub_1abc"));
    assert!(file.is_function_at_address(0x1c));
    assert!(file.is_function_at_address(0x1abc));
    assert!(!file.is_function_at_address(0));
    assert_eq!(file.find_function_name(0x1abc), "sub_1abc");
    // Again: nothing is new.
    V1Disassembler::diassemble(&mut file, 0).unwrap();
    assert_eq!(file.called_functions.as_ref().unwrap().size(), 2);
    // A negative target is an address above the signed range.
    V1Disassembler::diassemble(&mut file, 0x1c).unwrap();
    let called = file.called_functions.as_ref().unwrap().entries();
    assert_eq!(called.len(), 3);
    assert_eq!((called[2].address, called[2].name.as_str()), (0xffff_fffc, "sub_fffffffc"));
    assert!(file.is_function_at_address(-4));
    assert_eq!(file.find_function_name(-4), "sub_fffffffc");
}

#[test]
fn nothing_is_noted_where_reading_fails() {
    let code = [op(V1OPCode::PROC), op(V1OPCode::CALL), 0x40, 0];
    let mut file = file_with_code(&code, &[]).unwrap();
    assert_eq!(V1Disassembler::diassemble(&mut file, 0).err(), Some(Error::InvalidIndex));
    assert_eq!(file.called_functions.as_ref().unwrap().size(), 0);
}

#[test]
fn a_call_of_a_public_function_is_not_noted() {
    let code = [
        op(V1OPCode::PROC),
        op(V1OPCode::CALL),
        16,
        op(V1OPCode::RETN),
        op(V1OPCode::PROC),
        op(V1OPCode::CALL),
        0,
        op(V1OPCode::RETN),
    ];
    let file = file_with_code(
        &code,
        &[(".names", POOL.to_vec()), (".publics", code_words(&[0, 0, 16, 4]))],
    )
    .unwrap();
    assert_eq!(file.publics.as_ref().unwrap().size(), 2);
    assert_eq!(file.called_functions.as_ref().unwrap().size(), 0);
    assert!(file.is_function_at_address(0));
    assert!(file.is_function_at_address(16));
    assert!(!file.is_function_at_address(4));
    assert_eq!(file.find_function_name(0), "foo");
    assert_eq!(file.find_function_name(16), "bar");
    assert_eq!(file.find_function_name(4), "unknown");
}

#[test]
fn loading_follows_the_calls() {
    // main at 0 calls a at 20, which calls b at 36 and main; b calls a.
    let code = [
        op(V1OPCode::PROC),
        op(V1OPCode::CALL),
        20,
        op(V1OPCode::RETN),
        op(V1OPCode::ENDPROC),
        op(V1OPCode::PROC),
        op(V1OPCode::CALL),
        36,
        op(V1OPCode::ENDPROC),
        op(V1OPCode::PROC),
        op(V1OPCode::CALL),
        20,
        op(V1OPCode::CALL),
        0,
        op(V1OPCode::RETN),
    ];
    let file =
        file_with_code(&code, &[(".names", POOL.to_vec()), (".publics", code_words(&[0, 8]))])
            .unwrap();
    let called = file.called_functions.as_ref().unwrap().entries();
    assert_eq!(called.len(), 2);
    assert_eq!((called[0].address, called[0].name.as_str()), (20, "sub_14"));
    assert_eq!((called[1].address, called[1].name.as_str()), (36, "sub_24"));
    assert_eq!(file.find_function_name(0), "baz");
    assert_eq!(file.find_function_name(20), "sub_14");
    assert_eq!(file.find_function_name(36), "sub_24");
    assert_eq!(file.find_function_name(24), "unknown");
}

#[test]
fn a_call_into_nothing_fails_the_load() {
    let code = [op(V1OPCode::PROC), op(V1OPCode::CALL), 4, op(V1OPCode::RETN)];
    let publics = [(".names", POOL.to_vec()), (".publics", code_words(&[0, 0]))];
    assert_eq!(
        file_with_code(&code, &publics).err(),
        Some(Error::Other("Function does not start with PROC"))
    );
    let code = [op(V1OPCode::PROC), op(V1OPCode::CALL), 4000, op(V1OPCode::RETN)];
    assert_eq!(file_with_code(&code, &publics).err(), Some(Error::Io(IoError::UnexpectedEof)));
    let code = [op(V1OPCode::ADD)];
    assert_eq!(
        file_with_code(&code, &publics).err(),
        Some(Error::Other("Function does not start with PROC"))
    );
}

#[test]
fn code_addresses_count_from_the_data_offset_of_the_header() {
    // With another section before the code, addresses count from the data
    // of that section plus the code offset.
    let blob = code_words(&[op(V1OPCode::PROC), op(V1OPCode::RETN), op(V1OPCode::RETN)]);
    let mut first = vec![0u8; 16];
    first.extend_from_slice(&code_words(&[op(V1OPCode::PROC), op(V1OPCode::NOP), op(V1OPCode::NOP)]));
    let image = code_image(&[(".x", first), (".code", code_section(&blob, 12))]);
    let mut file = SMXFile::new(&image).unwrap();
    let code = file.codev1.as_ref().unwrap();
    assert_eq!(code.code_start(), file.header.data_offset + 16);
    assert_eq!(code.get_data_vec(), blob);
    let insns = V1Disassembler::diassemble(&mut file, 0).unwrap();
    assert_eq!(shape(&insns), vec![(4, V1OPCode::NOP, vec![]), (8, V1OPCode::NOP, vec![])]);
}

#[test]
fn a_disassembler_can_be_made_for_a_code_section() {
    let file = file_with_code(&[op(V1OPCode::PROC), op(V1OPCode::HALT), 3], &[]).unwrap();
    let code = file.codev1.as_ref().unwrap();
    let disassembler = V1Disassembler::new(code, 0);
    assert_eq!(disassembler.proc_offset, 0);
    assert_eq!(disassembler.cursor_limit, 12);
    assert_eq!(disassembler.code_start, code.code_start() as i64);
    let insns = disassembler.diassemble_internal().unwrap();
    assert_eq!(shape(&insns), vec![(4, V1OPCode::HALT, vec![3])]);
}

#[test]
fn instructions_are_numbered() {
    assert_eq!(V1OPCode::LOAD_PRI.value(), 1);
    assert_eq!(V1OPCode::PROC.value(), 46);
    assert_eq!(V1OPCode::RETN.value(), 48);
    assert_eq!(V1OPCode::CALL.value(), 49);
    assert_eq!(V1OPCode::ADD.value(), 78);
    assert_eq!(V1OPCode::HALT.value(), 120);
    assert_eq!(V1OPCode::CASETBL.value(), 130);
    assert_eq!(V1OPCode::BREAK.value(), 137);
    assert_eq!(V1OPCode::ENDPROC.value(), 166);
    assert_eq!(V1OPCode::REBASE.value(), 168);
    let mut known = 0;
    for value in 0..=255u8 {
        match V1OPCode::from_value(value) {
            Some(opcode) => {
                known += 1;
                assert_eq!(opcode.value(), value);
                assert_eq!(V1OPCode::from_word(value as i32), Some(opcode));
                assert!(opcode.params().len() <= 5);
                let info = V1OPCodeInfo::of(opcode);
                assert_eq!(info.opcode, opcode);
                assert_eq!(info.name, opcode.name());
                assert_eq!(info.params, opcode.params());
                assert_eq!(info.clone().name, info.name);
            }
            None => assert_eq!(V1OPCode::from_word(value as i32), None),
        }
    }
    assert_eq!(known, V1OPCode::TOTAL_OPCODES);
    assert_eq!(V1OPCode::from_word(-1), None);
    assert_eq!(V1OPCode::from_word(256 + 46), None);
    assert_eq!(V1OPCode::from_word(i32::MAX), None);
}

#[test]
fn instructions_have_mnemonics_and_parameters() {
    assert_eq!(V1OPCode::LOAD_S_PRI.name(), "load.s.pri");
    assert_eq!(V1OPCode::TRACKER_POP_SETHEAP.name(), "tracker.pop.setheap");
    assert_eq!(V1OPCode::PUSH2_ADR.name(), "push2.adr");
    assert_eq!(V1OPCode::ADD.name(), "add");
    assert_eq!(V1OPCode::ADD.params(), vec![]);
    assert_eq!(V1OPCode::LIDX.params(), vec![]);
    assert_eq!(V1OPCode::ADD_C.params(), vec![V1Param::Constant]);
    assert_eq!(V1OPCode::LOAD_PRI.params(), vec![V1Param::Constant]);
    assert_eq!(V1OPCode::ADDR_ALT.params(), vec![V1Param::Stack]);
    assert_eq!(V1OPCode::PUSH_ADR.params(), vec![V1Param::Stack]);
    assert_eq!(V1OPCode::SWITCH.params(), vec![V1Param::Address]);
    assert_eq!(V1OPCode::JZER.params(), vec![V1Param::Jump]);
    assert_eq!(V1OPCode::CALL.params(), vec![V1Param::Function]);
    assert_eq!(V1OPCode::SYSREQ_C.params(), vec![V1Param::Native]);
    assert_eq!(V1OPCode::SYSREQ_N.params(), vec![V1Param::Native, V1Param::Constant]);
    assert_eq!(V1OPCode::CASETBL.params(), vec![V1Param::Constant, V1Param::Address]);
    assert_eq!(V1OPCode::CONST.params(), vec![V1Param::Address, V1Param::Constant]);
    assert_eq!(V1OPCode::CONST_S.params(), vec![V1Param::Stack, V1Param::Constant]);
    assert_eq!(V1OPCode::LOAD_BOTH.params(), vec![V1Param::Constant; 2]);
    assert_eq!(V1OPCode::LOAD_S_BOTH.params(), vec![V1Param::Stack; 2]);
    assert_eq!(
        V1OPCode::REBASE.params(),
        vec![V1Param::Address, V1Param::Constant, V1Param::Constant]
    );
    let families = [
        (V1OPCode::PUSH2, V1OPCode::PUSH3, V1OPCode::PUSH4, V1OPCode::PUSH5, V1Param::Address),
        (
            V1OPCode::PUSH2_C,
            V1OPCode::PUSH3_C,
            V1OPCode::PUSH4_C,
            V1OPCode::PUSH5_C,
            V1Param::Constant,
        ),
        (V1OPCode::PUSH2_S, V1OPCode::PUSH3_S, V1OPCode::PUSH4_S, V1OPCode::PUSH5_S, V1Param::Stack),
        (
            V1OPCode::PUSH2_ADR,
            V1OPCode::PUSH3_ADR,
            V1OPCode::PUSH4_ADR,
            V1OPCode::PUSH5_ADR,
            V1Param::Stack,
        ),
    ];
    for (two, three, four, five, kind) in families {
        assert_eq!(two.params(), vec![kind; 2]);
        assert_eq!(three.params(), vec![kind; 3]);
        assert_eq!(four.params(), vec![kind; 4]);
        assert_eq!(five.params(), vec![kind; 5]);
    }
}

fn var_bytes(address: i32, scope: u8, name: i32, start: i32, end: i32, type_id: i32) -> Vec<u8> {
    let mut out = Vec::new();
    out.extend_from_slice(&address.to_le_bytes());
    out.push(scope);
    out.extend_from_slice(&name.to_le_bytes());
    out.extend_from_slice(&start.to_le_bytes());
    out.extend_from_slice(&end.to_le_bytes());
    out.extend_from_slice(&type_id.to_le_bytes());
    out
}

fn var_list(rows: &[Vec<u8>]) -> Vec<u8> {
    let mut out = Vec::new();
    out.extend_from_slice(&12u32.to_le_bytes());
    out.extend_from_slice(&21u32.to_le_bytes());
    out.extend_from_slice(&(rows.len() as u32).to_le_bytes());
    for r in rows {
        out.extend_from_slice(r);
    }
    out
}

#[test]
fn test_file() {
    let code = [op(V1OPCode::PROC), op(V1OPCode::CALL), 16, op(V1OPCode::RETN), op(V1OPCode::PROC), op(V1OPCode::RETN)];
    let mut data = code_words(&[4, 64, 12]);
    data.extend_from_slice(&[1, 2, 3, 4]);
    let mut f = file_with_code(
        &code,
        &[
            (".names", POOL.to_vec()),
            (".dbg.strings", b"dbg\0".to_vec()),
            (".dbg.info", code_words(&[1, 2, 3, 4])),
            (".natives", code_words(&[4])),
            (".publics", code_words(&[0, 0])),
            (".pubvars", code_words(&[8, 8])),
            (".tags", code_words(&[0x4000_0001, 4])),
            (".data", data),
            (".dbg.files", code_words(&[0, 0])),
            (".dbg.lines", code_words(&[0, 9, 16, 11])),
            (".dbg.globals", var_list(&[var_bytes(8, 0, 8, 0, 0, 0x60)])),
            (".dbg.locals", var_list(&[var_bytes(-4, 1, 4, 0, 12, 0x60)])),
            (".dbg.methods", var_list(&[])),
            (".dbg.natives", vec![1, 2, 3]),
            (".custom", vec![]),
        ],
    )
    .unwrap();
    println!("========== HEADER ==========");
    println!("Magic: {}", f.header.magic);
    println!("Version: {}", f.header.version);
    println!("Compression Type: {}", f.header.compression_type.label());
    println!("Disk Size: {}", f.header.disk_size);
    println!("Image Size: {}", f.header.image_size);
    println!("Section Count: {}", f.header.section_count);
    println!("String Table Offset: {}", f.header.string_table_offset);
    println!("Data Offset: {}", f.header.data_offset);
    println!("Debug Packed: {}", f.header.debug_packed);
    assert_eq!(f.header.section_count, 16);
    assert!(!f.header.debug_packed);
    assert_eq!(f.names.as_mut().unwrap().string_at(8).unwrap(), "baz");
    assert_eq!(f.debug_names.as_mut().unwrap().string_at(0).unwrap(), "dbg");
    let natives = f.natives.as_ref().unwrap().entries();
    assert_eq!(natives.len(), 1);
    assert_eq!(natives[0].name, "bar");
    let publics = f.publics.as_ref().unwrap().entries();
    assert_eq!((publics[0].address, publics[0].name.as_str()), (0, "foo"));
    let pubvars = f.pubvars.as_ref().unwrap().entries();
    assert_eq!((pubvars[0].address, pubvars[0].name.as_str()), (8, "baz"));
    let tag = f.tags.as_ref().unwrap().get_entry(0);
    assert_eq!((tag.id(), tag.flags(), tag.value(), tag.name().as_str()), (1, 0x4000_0000, 0x4000_0001, "bar"));
    assert_eq!(f.tags.as_mut().unwrap().find_tag(1).unwrap().name(), "bar");
    let data = f.data.as_ref().unwrap();
    assert_eq!(data.header().data_size, 4);
    assert_eq!(data.header().memory_size, 64);
    assert_eq!(data.get_data_vec(), vec![1, 2, 3, 4]);
    let code = f.codev1.as_ref().unwrap();
    assert_eq!(code.header().code_size, 24);
    assert_eq!(code.header().cell_size, 4);
    assert_eq!(code.header().code_offset, 16);
    assert_eq!(code.header().features, 0);
    let called = f.called_functions.as_ref().unwrap().entries();
    assert_eq!(called.len(), 1);
    assert_eq!((called[0].address, called[0].name.as_str()), (16, "sub_10"));
    let info = f.debug_info.as_ref().unwrap();
    assert_eq!((info.file_count(), info.line_count()), (1, 2));
    assert_eq!(f.debug_files.as_ref().unwrap().find_file(100), Some("foo".to_string()));
    assert_eq!(f.debug_lines.as_ref().unwrap().find_file(16), Some(12));
    assert_eq!(f.debug_methods.as_ref().unwrap().entries().len(), 0);
    assert_eq!(f.find_global_name(8), Some("baz".to_string()));
    assert_eq!(f.find_global_name(9), None);
    assert_eq!(f.find_local_name(4, -4), Some("bar".to_string()));
    assert_eq!(f.find_local_name(13, -4), None);
    assert_eq!(f.find_local_name(4, -8), None);
    assert_eq!(f.find_function_name(0), "foo");
    assert_eq!(f.find_function_name(16), "sub_10");
    assert_eq!(f.find_function_name(1), "unknown");
    assert!(f.is_function_at_address(0));
    assert!(f.is_function_at_address(16));
    assert!(!f.is_function_at_address(1));
    let unknown: Vec<&str> = f.unknown_sections.iter().map(|s| s.name.as_str()).collect();
    assert_eq!(unknown, vec![".dbg.natives", ".custom"]);
    assert!(f.rtti_data.is_none());
    assert!(f.rtti_enums.is_none());
}

#[test]
fn a_container_without_sections_has_no_tables() {
    let image = code_image(&[]);
    let mut f = SMXFile::new(&image).unwrap();
    assert_eq!(f.header.data, image);
    assert!(f.header.sections.is_empty());
    assert!(f.unknown_sections.is_empty());
    assert!(f.names.is_none());
    assert!(f.debug_names.is_none());
    assert!(f.natives.is_none());
    assert!(f.publics.is_none());
    assert!(f.pubvars.is_none());
    assert!(f.tags.is_none());
    assert!(f.data.is_none());
    assert!(f.codev1.is_none());
    assert!(f.debug_info.is_none());
    assert!(f.debug_files.is_none());
    assert!(f.debug_lines.is_none());
    assert!(f.rtti_data.is_none());
    assert!(f.rtti_enums.is_none());
    assert!(f.rtti_enum_structs.is_none());
    assert!(f.rtti_enum_struct_fields.is_none());
    assert!(f.rtti_classdefs.is_none());
    assert!(f.rtti_fields.is_none());
    assert!(f.rtti_methods.is_none());
    assert!(f.rtti_natives.is_none());
    assert!(f.rtti_typedefs.is_none());
    assert!(f.rtti_typesets.is_none());
    assert!(f.debug_methods.is_none());
    assert!(f.debug_globals.is_none());
    assert!(f.debug_locals.is_none());
    assert_eq!(f.called_functions.as_ref().unwrap().size(), 0);
    assert!(!f.is_function_at_address(0));
    assert_eq!(f.find_function_name(0), "unknown");
    assert_eq!(f.find_global_name(0), None);
    assert_eq!(f.find_local_name(0, 0), None);
}

#[test]
fn names_are_read_from_the_container() {
    let image = code_image(&[(".names", POOL.to_vec())]);
    let mut f = SMXFile::new(&image).unwrap();
    let names = f.names.as_mut().unwrap();
    assert_eq!(names.string_at(0).unwrap(), "foo");
    assert_eq!(names.string_at(4).unwrap(), "bar");
    assert_eq!(names.string_at(8).unwrap(), "baz");
    assert_eq!(names.get_extends(), vec![0, 4, 8]);
    // Without its own section the debug names are the names.
    let debug_names = f.debug_names.as_mut().unwrap();
    assert_eq!(debug_names.string_at(4).unwrap(), "bar");
    assert_eq!(debug_names.get_extends(), vec![0, 4, 8]);
}

#[test]
fn a_public_function_is_a_function() {
    let file = file_with_code(
        &[0; 0x40]
            .iter()
            .map(|_| op(V1OPCode::NOP))
            .chain([op(V1OPCode::PROC), op(V1OPCode::RETN)])
            .collect::<Vec<i64>>(),
        &[(".names", POOL.to_vec()), (".publics", code_words(&[0x100, 0]))],
    )
    .unwrap();
    let publics = file.publics.as_ref().unwrap().entries();
    assert_eq!(publics.len(), 1);
    assert_eq!(publics[0].name, "foo");
    assert_eq!(publics[0].address, 0x100);
    assert!(file.is_function_at_address(0x100));
    assert!(!file.is_function_at_address(0x101));
}

#[test]
fn a_table_of_names_needs_the_name_table() {
    for name in [
        ".natives",
        ".publics",
        ".pubvars",
        ".tags",
        ".dbg.files",
        "rtti.classdefs",
        "rtti.enumstructs",
        "rtti.enumstruct_fields",
        "rtti.fields",
        "rtti.methods",
        "rtti.natives",
        "rtti.enums",
        "rtti.typedefs",
        "rtti.typesets",
    ] {
        let rows = if name.starts_with("rtti.") { vec![0; 12] } else { vec![] };
        let image = code_image(&[(name, rows.clone())]);
        assert_eq!(SMXFile::new(&image).err(), Some(Error::InvalidIndex), "{}", name);
        // The name table may come later in the directory.
        let image = code_image(&[(name, rows), (".names", POOL.to_vec())]);
        assert!(SMXFile::new(&image).is_ok(), "{}", name);
    }
    for name in [".data", ".dbg.lines", ".dbg.methods", ".dbg.globals", ".dbg.locals", "rtti.data"] {
        let image = code_image(&[(name, vec![0; 16])]);
        assert!(SMXFile::new(&image).is_ok(), "{}", name);
    }
}

#[test]
fn a_section_outside_the_image_is_an_underrun() {
    for name in [".names", ".dbg.strings", ".dbg.info", ".data", ".code", "rtti.data", ".dbg.lines"] {
        let mut image = code_image(&[(name, vec![0; 32])]);
        let size = 33i32;
        image[32..36].copy_from_slice(&size.to_le_bytes());
        assert_eq!(SMXFile::new(&image).err(), Some(Error::Io(IoError::UnexpectedEof)), "{}", name);
        let mut image = code_image(&[(name, vec![0; 32])]);
        let offset = image.len() as i32 + 1;
        image[28..32].copy_from_slice(&offset.to_le_bytes());
        image[32..36].copy_from_slice(&0i32.to_le_bytes());
        assert_eq!(SMXFile::new(&image).err(), Some(Error::Io(IoError::UnexpectedEof)), "{}", name);
    }
    // A section that is not read may lie anywhere.
    let mut image = code_image(&[(".custom", vec![0; 32])]);
    image[32..36].copy_from_slice(&1_000_000i32.to_le_bytes());
    let f = SMXFile::new(&image).unwrap();
    assert_eq!(f.unknown_sections.len(), 1);
    assert_eq!(f.unknown_sections[0].size, 1_000_000);
}

#[test]
fn the_last_section_of_a_name_counts() {
    let image = code_image(&[
        (".names", b"old\0".to_vec()),
        (".natives", code_words(&[0])),
        (".names", b"new\0".to_vec()),
        (".natives", code_words(&[0, 0])),
    ]);
    let mut f = SMXFile::new(&image).unwrap();
    assert_eq!(f.names.as_mut().unwrap().string_at(0).unwrap(), "new");
    let natives = f.natives.as_ref().unwrap().entries();
    assert_eq!(natives.len(), 2);
    assert_eq!(natives[0].name, "new");
}

#[test]
fn a_failing_table_fails_the_load() {
    let image = code_image(&[(".names", POOL.to_vec()), (".publics", vec![0; 9])]);
    assert_eq!(SMXFile::new(&image).err(), Some(Error::InvalidSize));
    let image = code_image(&[(".names", POOL.to_vec()), (".natives", code_words(&[50]))]);
    assert_eq!(SMXFile::new(&image).err(), Some(Error::InvalidIndex));
    let image = code_image(&[(".code", vec![0; 15])]);
    assert_eq!(SMXFile::new(&image).err(), Some(Error::Io(IoError::UnexpectedEof)));
    let image = code_image(&[(".dbg.info", vec![0; 15])]);
    assert_eq!(SMXFile::new(&image).err(), Some(Error::Io(IoError::UnexpectedEof)));
    assert_eq!(SMXFile::new(&[1, 2, 3, 4]).err(), Some(Error::InvalidMagic));
    // The first section that fails decides.
    let image = code_image(&[
        (".names", POOL.to_vec()),
        (".natives", code_words(&[50])),
        (".publics", vec![0; 9]),
    ]);
    assert_eq!(SMXFile::new(&image).err(), Some(Error::InvalidIndex));
    // The debug information header is read before the other tables.
    let image = code_image(&[
        (".names", POOL.to_vec()),
        (".publics", vec![0; 9]),
        (".dbg.info", vec![0; 15]),
    ]);
    assert_eq!(SMXFile::new(&image).err(), Some(Error::Io(IoError::UnexpectedEof)));
}

#[test]
fn a_global_without_a_name_has_none() {
    let image = code_image(&[
        (".names", POOL.to_vec()),
        (".dbg.globals", var_list(&[var_bytes(8, 0, 100, 0, 0, 0), var_bytes(12, 0, 4, 0, 0, 0)])),
    ]);
    let mut f = SMXFile::new(&image).unwrap();
    assert_eq!(f.find_global_name(8), None);
    assert_eq!(f.find_global_name(12), Some("bar".to_string()));
    assert_eq!(f.find_global_name(12), Some("bar".to_string()));
    let image = code_image(&[(".dbg.globals", var_list(&[var_bytes(12, 0, 4, 0, 0, 0)]))]);
    let mut f = SMXFile::new(&image).unwrap();
    assert_eq!(f.find_global_name(12), None);
}
