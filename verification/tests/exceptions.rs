use jadro::exceptions::{
    breakpoint_handler, divide_by_zero_handler, init, invalid_opcode_handler, loaded_confirmation,
    page_fault_handler, Disposition, ExceptionStackFrame, HandlerAddresses, PageFaultErrorCode,
    QemuExitCode, Vector, BREAKPOINT_VECTOR, DIVIDE_BY_ZERO_VECTOR, INVALID_OPCODE_VECTOR,
    PAGE_FAULT_VECTOR,
};
use jadro::idt::IDT_ENTRIES;

fn frame() -> ExceptionStackFrame {
    ExceptionStackFrame {
        instruction_pointer: 0x1111,
        code_segment: 0x8,
        cpu_flags: 0x202,
        stack_pointer: 0x7FFF_0000,
        stack_segment: 0x10,
    }
}

#[test]
fn write_fault_error_code_decodes_to_caused_by_write_alone() {
    let code = PageFaultErrorCode::from_bits(0b00010);
    assert!(code.caused_by_write());
    assert!(!code.protection_violation());
    assert!(!code.user_mode());
    assert!(!code.malformed_table());
    assert!(!code.instruction_fetch());
    assert_eq!(code.unknown_bits(), 0);
}

#[test]
fn every_flag_bit_decodes_independently() {
    assert!(PageFaultErrorCode::from_bits(0b00001).protection_violation());
    assert!(PageFaultErrorCode::from_bits(0b00100).user_mode());
    assert!(PageFaultErrorCode::from_bits(0b01000).malformed_table());
    assert!(PageFaultErrorCode::from_bits(0b10000).instruction_fetch());
}

#[test]
fn unknown_error_code_bits_are_preserved_not_rejected() {
    let code = PageFaultErrorCode::from_bits(0xFFC2);
    assert!(code.caused_by_write());
    assert_eq!(code.unknown_bits(), 0xFFC0);
    assert_eq!(code.bits(), 0xFFC2);
}

#[test]
fn exit_codes_match_the_host_mapping() {
    assert_eq!(QemuExitCode::Success.code(), 0x10);
    assert_eq!(QemuExitCode::Failed.code(), 0x11);
}

#[test]
fn vector_numbers_match_the_fixed_registry() {
    assert_eq!(Vector::DivideByZero.number(), DIVIDE_BY_ZERO_VECTOR);
    assert_eq!(Vector::Breakpoint.number(), BREAKPOINT_VECTOR);
    assert_eq!(Vector::InvalidOpcode.number(), INVALID_OPCODE_VECTOR);
    assert_eq!(Vector::PageFault.number(), PAGE_FAULT_VECTOR);
    assert_eq!(DIVIDE_BY_ZERO_VECTOR, 0);
    assert_eq!(BREAKPOINT_VECTOR, 3);
    assert_eq!(INVALID_OPCODE_VECTOR, 6);
    assert_eq!(PAGE_FAULT_VECTOR, 14);
}

#[test]
fn only_the_page_fault_carries_an_error_code() {
    assert!(!Vector::DivideByZero.has_error_code());
    assert!(!Vector::Breakpoint.has_error_code());
    assert!(!Vector::InvalidOpcode.has_error_code());
    assert!(Vector::PageFault.has_error_code());
}

#[test]
fn vector_mnemonics_name_each_vector() {
    assert_eq!(Vector::DivideByZero.mnemonic(), "DIVIDE BY ZERO");
    assert_eq!(Vector::Breakpoint.mnemonic(), "BREAKPOINT");
    assert_eq!(Vector::InvalidOpcode.mnemonic(), "INVALID OPCODE");
    assert_eq!(Vector::PageFault.mnemonic(), "PAGE FAULT");
}

#[test]
fn divide_by_zero_reports_its_vector_and_terminates_with_success() {
    let f = frame();
    let r = divide_by_zero_handler(&f);
    assert_eq!(r.diagnostic.vector, Vector::DivideByZero);
    assert_eq!(r.diagnostic.vector.mnemonic(), "DIVIDE BY ZERO");
    assert_eq!(r.diagnostic.frame, f);
    assert_eq!(r.diagnostic.error_code, None);
    assert_eq!(r.diagnostic.accessed_address, None);
    assert_eq!(r.exit_code, QemuExitCode::Success);
    assert_eq!(r.disposition, Disposition::Halt);
}

#[test]
fn breakpoint_reports_and_resumes() {
    let f = frame();
    let r = breakpoint_handler(&f);
    assert_eq!(r.diagnostic.vector, Vector::Breakpoint);
    assert_eq!(r.diagnostic.frame.instruction_pointer, f.instruction_pointer);
    assert_eq!(r.exit_code, QemuExitCode::Success);
    assert_eq!(r.disposition, Disposition::Resume);
}

#[test]
fn invalid_opcode_reports_its_vector_and_terminates_with_success() {
    let f = frame();
    let r = invalid_opcode_handler(&f);
    assert_eq!(r.diagnostic.vector, Vector::InvalidOpcode);
    assert_eq!(r.diagnostic.frame, f);
    assert_eq!(r.exit_code, QemuExitCode::Success);
    assert_eq!(r.disposition, Disposition::Halt);
}

#[test]
fn page_fault_reports_address_and_decoded_error_code_and_never_resumes() {
    let f = frame();
    let r = page_fault_handler(&f, 0b00010, 0xCAFE_BABE);
    assert_eq!(r.diagnostic.vector, Vector::PageFault);
    assert_eq!(r.diagnostic.vector.mnemonic(), "PAGE FAULT");
    assert_eq!(r.diagnostic.frame, f);
    assert_eq!(r.diagnostic.accessed_address, Some(0xCAFE_BABE));
    let code = r.diagnostic.error_code.unwrap();
    assert!(code.caused_by_write());
    assert!(!code.protection_violation());
    assert_eq!(r.exit_code, QemuExitCode::Success);
    assert_eq!(r.disposition, Disposition::Halt);
}

fn stub_addresses() -> HandlerAddresses {
    HandlerAddresses {
        divide_by_zero: 0x1000_0000,
        breakpoint: 0x2000_0000,
        invalid_opcode: 0x3000_0000,
        page_fault: 0x4000_0000,
    }
}

#[test]
fn init_populates_exactly_the_four_registry_vectors() {
    let handlers = stub_addresses();
    let table = init(&handlers);
    assert_eq!(table.len(), IDT_ENTRIES);
    for i in 0..table.len() {
        let entry = table.entry(i);
        match i as u8 {
            v if v == DIVIDE_BY_ZERO_VECTOR => {
                assert!(entry.is_present());
                assert_eq!(entry.handler_addr(), handlers.divide_by_zero);
            }
            v if v == BREAKPOINT_VECTOR => {
                assert!(entry.is_present());
                assert_eq!(entry.handler_addr(), handlers.breakpoint);
            }
            v if v == INVALID_OPCODE_VECTOR => {
                assert!(entry.is_present());
                assert_eq!(entry.handler_addr(), handlers.invalid_opcode);
            }
            v if v == PAGE_FAULT_VECTOR => {
                assert!(entry.is_present());
                assert_eq!(entry.handler_addr(), handlers.page_fault);
            }
            _ => assert!(!entry.is_present()),
        }
    }
}

#[test]
fn init_twice_leaves_the_same_populated_table() {
    let handlers = stub_addresses();
    let first = init(&handlers);
    let second = init(&handlers);
    assert_eq!(first.len(), second.len());
    for i in 0..first.len() {
        assert_eq!(first.entry(i), second.entry(i));
    }
}

#[test]
fn the_confirmation_line_names_the_loaded_table() {
    assert_eq!(loaded_confirmation(), "IDT LOADED");
}
