use falcon_capstone::{
    c_chars_to_string, error_message_from_engine, is_decodable, name_from_engine, to_res, Arch, Capstone, CsErr, DetailsArch,
    Instr, InstrBuf, InstrIdArch, OptType, RawDetail, RawInsn, CS_ERR_OK, CS_OPT_OFF, CS_OPT_ON,
    ERROR_MESSAGE_FALLBACK,
};

fn c_array(text: &str, len: usize) -> Vec<u8> {
    let mut v: Vec<u8> = text.bytes().collect();
    v.resize(len, 0);
    v
}

fn evm_detail(read: Vec<u16>, read_count: u8) -> RawDetail {
    RawDetail {
        regs_read: read,
        regs_read_count: read_count,
        regs_write: vec![7, 8, 9],
        regs_write_count: 1,
        groups: vec![2, 3, 0, 0],
        groups_count: 2,
        arch: DetailsArch::EVM(capstone_sys::cs_evm { pop: 1, push: 2, fee: 3 }),
    }
}

fn raw(id: u32, mnemonic: &str, op_str: &str, detail: Option<RawDetail>) -> RawInsn {
    RawInsn {
        id,
        address: 0x1000,
        size: 2,
        bytes: vec![0x01, 0xc3, 0, 0],
        mnemonic: c_array(mnemonic, 32),
        op_str: c_array(op_str, 160),
        detail,
    }
}

#[test]
fn engine_constants_match_bindings() {
    assert_eq!(CS_ERR_OK, capstone_sys::cs_err::CS_ERR_OK);
    assert_eq!(CS_OPT_ON, capstone_sys::cs_opt_value::CS_OPT_ON);
    assert_eq!(CS_OPT_OFF, capstone_sys::cs_opt_value::CS_OPT_OFF);
}

#[test]
fn to_res_ok_only_for_no_error() {
    assert!(to_res(CS_ERR_OK).is_ok());
    assert_eq!(to_res(2).unwrap_err().code(), 2);
    assert_eq!(to_res(capstone_sys::cs_err::CS_ERR_OPTION).unwrap_err().code(), 6);
}

#[test]
fn error_keeps_its_code() {
    assert_eq!(CsErr::new(0).code(), 0);
    assert_eq!(CsErr::new(14).code(), 14);
}

#[test]
fn text_stops_at_first_nul() {
    assert_eq!(c_chars_to_string(&[b'p', b'u', b's', b'h', 0, b'x']), "push");
    assert_eq!(c_chars_to_string(&[0, b'a']), "");
    assert_eq!(c_chars_to_string(&[b'm', b'o', b'v']), "mov");
    assert_eq!(c_chars_to_string(&[]), "");
}

#[test]
fn text_bytes_read_as_code_points() {
    assert_eq!(c_chars_to_string(&[0xe9, 0]), "\u{e9}");
}

#[test]
fn engine_names_must_be_utf8() {
    assert_eq!(name_from_engine(None), None);
    assert_eq!(name_from_engine(Some(b"ebx")), Some("ebx".to_string()));
    assert_eq!(name_from_engine(Some(&[0xc3, 0xa9])), Some("\u{e9}".to_string()));
    assert_eq!(name_from_engine(Some(&[0xff, 0x61])), None);
    assert_eq!(name_from_engine(Some(b"")), Some(String::new()));
}

#[test]
fn decodable_architectures() {
    assert!(is_decodable(Arch::X86));
    assert!(is_decodable(Arch::EVM));
    assert!(!is_decodable(Arch::RISCV));
    assert!(!is_decodable(Arch::MAX));
    assert!(!is_decodable(Arch::ALL));
}

#[test]
fn instr_without_details() {
    let r = raw(8, "add", "ebx, eax", None);
    let i = Instr::new(&r, false, Arch::X86);
    assert_eq!(i.id, InstrIdArch::X86(8));
    assert_eq!(i.address, 0x1000);
    assert_eq!(i.size, 2);
    assert_eq!(i.bytes, vec![0x01, 0xc3, 0, 0]);
    assert_eq!(i.mnemonic, "add");
    assert_eq!(i.op_str, "ebx, eax");
    assert!(i.detail.is_none());
}

#[test]
fn instr_id_tagged_by_arch() {
    let r = raw(5, "nop", "", None);
    assert_eq!(Instr::new(&r, false, Arch::ARM).id, InstrIdArch::ARM(5));
    assert_eq!(Instr::new(&r, false, Arch::MIPS).id, InstrIdArch::MIPS(5));
    assert_eq!(Instr::new(&r, false, Arch::M680X).id, InstrIdArch::M680X(5));
    assert_eq!(InstrIdArch::from_arch(Arch::SPARC, 9), InstrIdArch::SPARC(9));
}

#[test]
fn instr_with_details_takes_counted_entries() {
    let r = raw(1, "stop", "", Some(evm_detail(vec![4, 5, 6], 2)));
    let i = Instr::new(&r, true, Arch::EVM);
    let d = i.detail.expect("details are on");
    assert_eq!(d.regs_read, vec![4, 5]);
    assert_eq!(d.regs_write, vec![7]);
    assert_eq!(d.groups, vec![2, 3]);
    match d.arch {
        DetailsArch::EVM(e) => {
            assert_eq!(e.pop, 1);
            assert_eq!(e.push, 2);
            assert_eq!(e.fee, 3);
        }
        _ => panic!("wrong architecture"),
    }
}

#[test]
fn details_ignored_when_off() {
    let r = raw(1, "stop", "", Some(evm_detail(vec![4], 1)));
    assert!(Instr::new(&r, false, Arch::EVM).detail.is_none());
}

#[test]
fn open_failure_carries_code() {
    let e = Capstone::new(Arch::X86, capstone_sys::cs_err::CS_ERR_MODE, 0).err().unwrap();
    assert_eq!(e.code(), 5);
}

#[test]
fn open_success_keeps_handle_and_arch() {
    let c = Capstone::new(Arch::ARM64, CS_ERR_OK, 42).ok().unwrap();
    assert_eq!(c.handle(), 42);
    assert_eq!(c.arch(), Arch::ARM64);
}

#[test]
fn fresh_handle_has_no_details() {
    let c = Capstone::new(Arch::EVM, CS_ERR_OK, 1).ok().unwrap();
    let buf = c.disasm(vec![raw(1, "stop", "", None)], CS_ERR_OK).ok().unwrap();
    assert!(buf.get(0).unwrap().detail.is_none());
}

#[test]
fn detail_option_on_then_off() {
    let mut c = Capstone::new(Arch::EVM, CS_ERR_OK, 1).ok().unwrap();
    assert!(c.option(OptType::Detail, CS_OPT_ON, CS_ERR_OK).is_ok());
    let buf = c.disasm(vec![raw(1, "stop", "", Some(evm_detail(vec![4], 1)))], CS_ERR_OK).ok().unwrap();
    assert_eq!(buf.get(0).unwrap().detail.unwrap().regs_read, vec![4]);

    assert!(c.option(OptType::Detail, CS_OPT_OFF, CS_ERR_OK).is_ok());
    let buf = c.disasm(vec![raw(1, "stop", "", Some(evm_detail(vec![4], 1)))], CS_ERR_OK).ok().unwrap();
    assert!(buf.get(0).unwrap().detail.is_none());
}

#[test]
fn failed_or_other_options_keep_details() {
    let mut c = Capstone::new(Arch::EVM, CS_ERR_OK, 1).ok().unwrap();
    let e = c.option(OptType::Detail, CS_OPT_ON, capstone_sys::cs_err::CS_ERR_OPTION).unwrap_err();
    assert_eq!(e.code(), 6);
    let buf = c.disasm(vec![raw(1, "stop", "", None)], CS_ERR_OK).ok().unwrap();
    assert!(buf.get(0).unwrap().detail.is_none());

    assert!(c.option(OptType::Detail, CS_OPT_ON, CS_ERR_OK).is_ok());
    assert!(c.option(OptType::Syntax, CS_OPT_OFF, CS_ERR_OK).is_ok());
    let buf = c.disasm(vec![raw(1, "stop", "", Some(evm_detail(vec![], 0)))], CS_ERR_OK).ok().unwrap();
    assert!(buf.get(0).unwrap().detail.is_some());
}

#[test]
fn disasm_of_nothing_fails_with_errno() {
    let c = Capstone::new(Arch::X86, CS_ERR_OK, 1).ok().unwrap();
    let e = c.disasm(Vec::new(), capstone_sys::cs_err::CS_ERR_MEM).err().unwrap();
    assert_eq!(e.code(), 1);
    let e = c.disasm(Vec::new(), CS_ERR_OK).err().unwrap();
    assert_eq!(e.code(), 0);
}

#[test]
fn buffer_get_and_count() {
    let buf = InstrBuf::new(
        vec![raw(1, "push", "ebp", None), raw(2, "dec", "eax", None), raw(3, "mov", "eax, 1", None)],
        false,
        Arch::X86,
    );
    assert_eq!(buf.count(), 3);
    assert_eq!(buf.get(0).unwrap().mnemonic, "push");
    assert_eq!(buf.get(1).unwrap().mnemonic, "dec");
    assert_eq!(buf.get(2).unwrap().mnemonic, "mov");
    assert!(buf.get(3).is_none());
    assert!(buf.get(usize::MAX).is_none());
}

#[test]
fn iterator_walks_in_order_then_stops() {
    let buf = InstrBuf::new(vec![raw(1, "push", "", None), raw(2, "ret", "", None)], false, Arch::X86);
    let mut it = buf.iter();
    assert_eq!(it.next().unwrap().id, InstrIdArch::X86(1));
    assert_eq!(it.next().unwrap().id, InstrIdArch::X86(2));
    assert!(it.next().is_none());
    assert!(it.next().is_none());
}

#[test]
fn error_message_text_or_fallback() {
    assert_eq!(error_message_from_engine(b"Invalid mode (CS_ERR_MODE)"), "Invalid mode (CS_ERR_MODE)");
    assert_eq!(error_message_from_engine(&[0xc3, 0xa9]), "\u{e9}");
    assert_eq!(error_message_from_engine(&[0x80]), ERROR_MESSAGE_FALLBACK);
    assert_eq!(ERROR_MESSAGE_FALLBACK, "Failed to creare the error message string");
}

#[test]
fn details_follow_last_successful_detail_setting() {
    let mut c = Capstone::new(Arch::EVM, CS_ERR_OK, 1).ok().unwrap();
    assert!(c.option(OptType::Detail, CS_OPT_ON, CS_ERR_OK).is_ok());
    assert!(c.option(OptType::Detail, CS_OPT_OFF, capstone_sys::cs_err::CS_ERR_OPTION).is_err());
    assert!(c.option(OptType::SkipData, CS_OPT_OFF, CS_ERR_OK).is_ok());
    assert!(c.details_on());
    let buf = c.disasm(vec![raw(1, "stop", "", Some(evm_detail(vec![4], 1)))], CS_ERR_OK).ok().unwrap();
    assert!(buf.get(0).unwrap().detail.is_some());
    assert!(c.option(OptType::Detail, 1, CS_ERR_OK).is_ok());
    assert!(!c.details_on());
}

#[test]
fn iteration_yields_count_items_equal_to_get() {
    let buf = InstrBuf::new(
        vec![raw(1, "push", "ebp", None), raw(2, "dec", "eax", None), raw(3, "mov", "eax, 1", None)],
        false,
        Arch::X86,
    );
    let mut it = buf.iter();
    let mut k = 0;
    while let Some(i) = it.next() {
        let g = buf.get(k).unwrap();
        assert_eq!(i.id, g.id);
        assert_eq!(i.mnemonic, g.mnemonic);
        assert_eq!(i.op_str, g.op_str);
        assert_eq!(i.bytes, g.bytes);
        k += 1;
    }
    assert_eq!(k, buf.count());
    assert!(it.next().is_none());
}
